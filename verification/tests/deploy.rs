use d2d_program_sol::errors::ErrorCode;
use d2d_program_sol::events::{
    DeploymentConfirmed, DeploymentFailed, DeploymentFundsRequested, ProgramClosed,
    ProgramDeployed, SubscriptionPaid, TemporaryWalletFunded,
};
use d2d_program_sol::instructions::{
    close_program_and_refund, confirm_deployment_failure, confirm_deployment_success,
    create_deploy_request, deploy_program, fund_temporary_wallet, pay_subscription,
    request_deployment_funds, CloseProgramAndRefund, ConfirmDeployment, CreateDeployRequest,
    DeployProgram, FundTemporaryWallet, PaySubscription, RequestDeploymentFunds,
};
use d2d_program_sol::pubkey::Pubkey;
use d2d_program_sol::states::DeployRequestStatus::{
    Active, Cancelled, Closed, Failed, PendingDeployment, SubscriptionExpired, Suspended,
};
use d2d_program_sol::states::{
    CustodyAccount, DeployRequest, DeployRequestStatus, RequestOperation, SessionFees,
    TreasuryPool, UserDeployStats,
};

const T0: i64 = 1_700_000_000;
const MONTH: i64 = 2_592_000;
const HASH: [u8; 32] = [0xAB; 32];
const OTHER_HASH: [u8; 32] = [0xCD; 32];

fn id(tag: u8) -> Pubkey {
    Pubkey::new_from_array([tag; 32])
}

fn holder(tag: u8, lamports: u64) -> CustodyAccount {
    CustodyAccount { key: id(tag), lamports }
}

fn admin() -> Pubkey {
    id(1)
}

fn developer() -> Pubkey {
    id(20)
}

fn new_pool() -> TreasuryPool {
    TreasuryPool::new(admin(), id(2))
}

fn blank_request() -> DeployRequest {
    DeployRequest {
        request_id: [0; 32],
        developer: Pubkey::default(),
        program_hash: [0; 32],
        service_fee: 0,
        monthly_fee: 0,
        initial_months: 0,
        deployment_cost: 0,
        borrowed_amount: 0,
        subscription_paid_until: 0,
        ephemeral_key: None,
        deployed_program_id: None,
        status: DeployRequestStatus::PendingDeployment,
        created_at: 0,
    }
}

fn blank_stats() -> UserDeployStats {
    UserDeployStats {
        user: Pubkey::default(),
        active_sessions: 0,
        daily_deploys: 0,
        total_deploys: 0,
        last_reset: 0,
    }
}

fn create_context() -> CreateDeployRequest {
    CreateDeployRequest {
        treasury_pool: new_pool(),
        reward_pool: holder(3, 1_000_000_000),
        platform_pool: holder(4, 1_000_000_000),
        deploy_request: blank_request(),
        user_stats: blank_stats(),
        developer: developer(),
        admin: admin(),
    }
}

fn create(ctx: &mut CreateDeployRequest) -> Result<DeploymentFundsRequested, ErrorCode> {
    create_deploy_request(ctx, HASH, 100_000, 10_000, 3, 50_000_000, T0)
}

fn pending_request() -> (TreasuryPool, DeployRequest) {
    let mut ctx = create_context();
    create(&mut ctx).unwrap();
    (ctx.treasury_pool, ctx.deploy_request)
}

fn confirm_context() -> ConfirmDeployment {
    let (pool, request) = pending_request();
    ConfirmDeployment {
        treasury_pool: pool,
        deploy_request: request,
        admin: admin(),
        ephemeral_key: holder(30, 0),
        developer_wallet: holder(20, 7),
        treasury_pda: holder(5, 1_000),
        reward_pool: holder(3, 130_000),
    }
}

#[test]
fn session_fees_follow_the_formula() {
    assert_eq!(
        SessionFees::compute(100_000, 10_000, 3, 50_000_000),
        Ok(SessionFees { reward_fee: 130_000, platform_fee: 50_000, total_payment: 180_000 })
    );
    assert_eq!(SessionFees::reward_fee(100_000, 10_000, 3), Ok(130_000));
    assert_eq!(
        SessionFees::compute(1, 1, 1, 999),
        Ok(SessionFees { reward_fee: 2, platform_fee: 0, total_payment: 2 })
    );
    assert_eq!(SessionFees::compute(0, u64::MAX, 2, 1), Err(ErrorCode::CalculationOverflow));
    assert_eq!(SessionFees::compute(1, u64::MAX, 1, 1), Err(ErrorCode::CalculationOverflow));
    assert_eq!(
        SessionFees::compute(0, u64::MAX - 1, 1, 2_000),
        Err(ErrorCode::CalculationOverflow)
    );
    assert_eq!(SessionFees::reward_fee(1, u64::MAX, 1), Err(ErrorCode::CalculationOverflow));
}

#[test]
fn created_request_credits_both_fees_and_is_pending() {
    let mut ctx = create_context();
    let event = create(&mut ctx).unwrap();
    assert_eq!(ctx.treasury_pool.reward_pool_balance, 130_000);
    assert_eq!(ctx.treasury_pool.platform_pool_balance, 50_000);
    assert_eq!(ctx.treasury_pool.reward_per_share, 0);
    assert_eq!(ctx.deploy_request.status, DeployRequestStatus::PendingDeployment);
    assert_eq!(
        ctx.deploy_request,
        DeployRequest {
            request_id: HASH,
            developer: developer(),
            program_hash: HASH,
            service_fee: 100_000,
            monthly_fee: 10_000,
            initial_months: 3,
            deployment_cost: 50_000_000,
            borrowed_amount: 0,
            subscription_paid_until: T0 + 3 * MONTH,
            ephemeral_key: None,
            deployed_program_id: None,
            status: DeployRequestStatus::PendingDeployment,
            created_at: T0,
        }
    );
    assert_eq!(
        ctx.user_stats,
        UserDeployStats {
            user: developer(),
            active_sessions: 1,
            daily_deploys: 1,
            total_deploys: 1,
            last_reset: T0,
        }
    );
    assert_eq!(
        event,
        DeploymentFundsRequested {
            request_id: HASH,
            developer: developer(),
            program_hash: HASH,
            service_fee: 100_000,
            monthly_fee: 10_000,
            initial_months: 3,
            deployment_cost: 50_000_000,
            total_payment: 180_000,
            requested_at: T0,
        }
    );
}

#[test]
fn created_request_raises_the_accumulator_when_there_are_deposits() {
    let mut ctx = create_context();
    ctx.treasury_pool.total_deposited = 1_000_000;
    create(&mut ctx).unwrap();
    assert_eq!(ctx.treasury_pool.reward_per_share, 130_000_000_000);
}

#[test]
fn create_refusals_in_their_order() {
    let base = create_context();

    let mut ctx = base;
    ctx.admin = id(9);
    ctx.treasury_pool.emergency_pause = true;
    let before = ctx;
    assert_eq!(create(&mut ctx), Err(ErrorCode::Unauthorized));
    assert_eq!(ctx, before);

    let mut ctx = base;
    ctx.treasury_pool.emergency_pause = true;
    assert_eq!(
        create_deploy_request(&mut ctx, HASH, 0, 1, 1, 1, T0),
        Err(ErrorCode::ProgramPaused)
    );

    let mut ctx = base;
    assert_eq!(create_deploy_request(&mut ctx, HASH, 0, 1, 1, 1, T0), Err(ErrorCode::InvalidAmount));
    assert_eq!(create_deploy_request(&mut ctx, HASH, 1, 0, 1, 1, T0), Err(ErrorCode::InvalidAmount));
    assert_eq!(create_deploy_request(&mut ctx, HASH, 1, 1, 0, 1, T0), Err(ErrorCode::InvalidAmount));
    assert_eq!(create_deploy_request(&mut ctx, HASH, 1, 1, 1, 0, T0), Err(ErrorCode::InvalidAmount));
    assert_eq!(
        create_deploy_request(&mut ctx, HASH, 1, u64::MAX, 2, 1, T0),
        Err(ErrorCode::CalculationOverflow)
    );
    assert_eq!(
        create_deploy_request(&mut ctx, HASH, 1, 1, 1, 1, i64::MAX - MONTH + 1),
        Err(ErrorCode::CalculationOverflow)
    );
    assert_eq!(
        create_deploy_request(&mut ctx, HASH, 1_000_000_000_000_000_000, 1, 1, 1, T0),
        Err(ErrorCode::FeeAmountTooLarge)
    );
    assert_eq!(ctx, base);

    let mut ctx = base;
    ctx.user_stats = UserDeployStats {
        user: developer(),
        active_sessions: u32::MAX,
        daily_deploys: 0,
        total_deploys: 0,
        last_reset: T0,
    };
    let before = ctx;
    assert_eq!(create(&mut ctx), Err(ErrorCode::CalculationOverflow));
    assert_eq!(ctx, before);

    let mut ctx = base;
    ctx.reward_pool.lamports = 129_999;
    let before = ctx;
    assert_eq!(create(&mut ctx), Err(ErrorCode::InsufficientTreasuryFunds));
    assert_eq!(ctx, before);

    let mut ctx = base;
    ctx.platform_pool.lamports = 49_999;
    let before = ctx;
    assert_eq!(create(&mut ctx), Err(ErrorCode::InsufficientTreasuryFunds));
    assert_eq!(ctx, before);
}

#[test]
fn daily_counter_starts_over_after_more_than_a_day() {
    let mut stats = blank_stats();
    assert_eq!(stats.record_request(developer(), T0), Ok(()));
    assert_eq!(stats.record_request(developer(), T0 + 86_400), Ok(()));
    assert_eq!(stats.daily_deploys, 2);
    assert_eq!(stats.last_reset, T0);
    assert_eq!(stats.record_request(developer(), T0 + 86_401), Ok(()));
    assert_eq!(
        stats,
        UserDeployStats {
            user: developer(),
            active_sessions: 3,
            daily_deploys: 1,
            total_deploys: 3,
            last_reset: T0 + 86_401,
        }
    );
    let mut far = stats;
    far.last_reset = i64::MIN;
    assert_eq!(far.record_request(developer(), i64::MAX), Ok(()));
    assert_eq!(far.daily_deploys, 1);
    assert_eq!(far.last_reset, i64::MAX);
    let mut full = stats;
    full.total_deploys = u64::MAX;
    assert_eq!(full.record_request(developer(), T0), Err(ErrorCode::CalculationOverflow));
    assert_eq!(full.total_deploys, u64::MAX);
    assert_eq!(full.active_sessions, 3);
    assert_eq!(UserDeployStats::DAY_SECONDS, 86_400);
}

#[test]
fn request_for_another_hash_on_a_used_record_is_refused() {
    let mut ctx = create_context();
    create(&mut ctx).unwrap();
    let before = ctx;
    assert_eq!(
        create_deploy_request(&mut ctx, OTHER_HASH, 100_000, 10_000, 3, 50_000_000, T0),
        Err(ErrorCode::InvalidRequestId)
    );
    assert_eq!(ctx, before);
}

#[test]
fn own_request_may_be_made_again_in_any_status() {
    let statuses = [
        DeployRequestStatus::PendingDeployment,
        DeployRequestStatus::Active,
        DeployRequestStatus::SubscriptionExpired,
        DeployRequestStatus::Suspended,
        DeployRequestStatus::Failed,
        DeployRequestStatus::Cancelled,
        DeployRequestStatus::Closed,
    ];
    for status in statuses {
        let mut ctx = create_context();
        create(&mut ctx).unwrap();
        ctx.deploy_request.status = status;
        ctx.deploy_request.ephemeral_key = Some(id(30));
        ctx.deploy_request.deployed_program_id = Some(id(31));
        ctx.deploy_request.borrowed_amount = 9;
        let event =
            create_deploy_request(&mut ctx, HASH, 5, 7, 2, 3_000, T0 + 10).unwrap();
        assert_eq!(ctx.deploy_request.status, DeployRequestStatus::PendingDeployment);
        assert_eq!(ctx.deploy_request.created_at, T0);
        assert_eq!(ctx.deploy_request.request_id, HASH);
        assert_eq!(ctx.deploy_request.ephemeral_key, None);
        assert_eq!(ctx.deploy_request.deployed_program_id, None);
        assert_eq!(ctx.deploy_request.borrowed_amount, 0);
        assert_eq!(ctx.deploy_request.service_fee, 5);
        assert_eq!(ctx.deploy_request.monthly_fee, 7);
        assert_eq!(ctx.deploy_request.initial_months, 2);
        assert_eq!(ctx.deploy_request.subscription_paid_until, T0 + 10 + 2 * MONTH);
        assert_eq!(event.total_payment, 5 + 14 + 3);
        assert_eq!(ctx.treasury_pool.reward_pool_balance, 130_000 + 19);
        assert_eq!(ctx.treasury_pool.platform_pool_balance, 50_000 + 3);
        assert_eq!(ctx.user_stats.total_deploys, 2);
    }
}

#[test]
fn another_developer_takes_over_only_an_ended_or_unfunded_session() {
    let cases = [
        (DeployRequestStatus::PendingDeployment, None, true),
        (DeployRequestStatus::PendingDeployment, Some(id(30)), false),
        (DeployRequestStatus::Active, None, false),
        (DeployRequestStatus::Active, Some(id(30)), false),
        (DeployRequestStatus::SubscriptionExpired, Some(id(30)), true),
        (DeployRequestStatus::Suspended, None, true),
        (DeployRequestStatus::Failed, Some(id(30)), true),
        (DeployRequestStatus::Cancelled, None, true),
        (DeployRequestStatus::Closed, Some(id(30)), true),
    ];
    for (status, escrow, allowed) in cases {
        let mut ctx = create_context();
        create(&mut ctx).unwrap();
        ctx.deploy_request.status = status;
        ctx.deploy_request.ephemeral_key = escrow;
        ctx.developer = id(21);
        ctx.user_stats = blank_stats();
        assert_eq!(ctx.deploy_request.can_reset(), allowed);
        assert_eq!(ctx.deploy_request.conflicts(&HASH, &id(21)), !allowed);
        let before = ctx;
        let r = create_deploy_request(&mut ctx, HASH, 5, 7, 2, 3_000, T0 + 10);
        if allowed {
            assert!(r.is_ok());
            assert_eq!(ctx.deploy_request.developer, id(21));
            assert_eq!(ctx.deploy_request.created_at, T0 + 10);
            assert_eq!(ctx.deploy_request.request_id, HASH);
            assert_eq!(ctx.deploy_request.status, DeployRequestStatus::PendingDeployment);
            assert_eq!(ctx.deploy_request.ephemeral_key, None);
            assert_eq!(ctx.user_stats.user, id(21));
        } else {
            assert_eq!(r, Err(ErrorCode::InvalidRequestId));
            assert_eq!(ctx, before);
        }
    }
}

#[test]
fn transition_table() {
    let all = [PendingDeployment, Active, SubscriptionExpired, Suspended, Failed, Cancelled, Closed];
    for status in all {
        assert_eq!(status.transition(RequestOperation::Create), Some(PendingDeployment));
        assert_eq!(
            status.transition(RequestOperation::FundEscrow),
            if status == PendingDeployment { Some(PendingDeployment) } else { None }
        );
        assert_eq!(
            status.transition(RequestOperation::ConfirmSuccess),
            if status == PendingDeployment { Some(Active) } else { None }
        );
        assert_eq!(
            status.transition(RequestOperation::ConfirmFailure),
            if status == PendingDeployment { Some(Failed) } else { None }
        );
        assert_eq!(
            status.transition(RequestOperation::PaySubscription),
            if status == Active || status == SubscriptionExpired { Some(Active) } else { None }
        );
        assert_eq!(
            status.transition(RequestOperation::Close),
            if status == Active { Some(Closed) } else { None }
        );
    }
}

#[test]
fn failure_refunds_the_fees_once() {
    let mut ctx = confirm_context();
    ctx.ephemeral_key.lamports = 49_000_000;
    ctx.reward_pool.lamports = 200_000;
    let event =
        confirm_deployment_failure(&mut ctx, HASH, "build failed".to_string(), T0 + 60).unwrap();
    assert_eq!(
        event,
        DeploymentFailed {
            request_id: HASH,
            developer: developer(),
            failure_reason: "build failed".to_string(),
            refund_amount: 130_000,
            deployment_cost_returned: 50_000_000,
            failed_at: T0 + 60,
        }
    );
    assert_eq!(ctx.deploy_request.status, DeployRequestStatus::Failed);
    assert_eq!(ctx.treasury_pool.reward_pool_balance, 0);
    assert_eq!(ctx.treasury_pool.platform_pool_balance, 50_000);
    assert_eq!(ctx.treasury_pool.liquid_balance, 49_000_000);
    assert_eq!(ctx.treasury_pool.total_deposited, 0);
    assert_eq!(ctx.reward_pool.lamports, 70_000);
    assert_eq!(ctx.developer_wallet.lamports, 130_007);
    assert_eq!(ctx.treasury_pda.lamports, 49_001_000);
    assert_eq!(ctx.ephemeral_key.lamports, 0);

    let before = ctx;
    assert_eq!(
        confirm_deployment_failure(&mut ctx, HASH, "again".to_string(), T0 + 61),
        Err(ErrorCode::InvalidRequestStatus)
    );
    assert_eq!(ctx, before);
    assert_eq!(
        confirm_deployment_success(&mut ctx, HASH, id(40), 0, T0 + 62),
        Err(ErrorCode::InvalidRequestStatus)
    );
}

#[test]
fn failure_refusals_in_their_order() {
    let base = confirm_context();

    let mut ctx = base;
    ctx.admin = id(9);
    ctx.treasury_pool.emergency_pause = true;
    assert_eq!(
        confirm_deployment_failure(&mut ctx, OTHER_HASH, String::new(), T0),
        Err(ErrorCode::Unauthorized)
    );

    let mut ctx = base;
    ctx.treasury_pool.emergency_pause = true;
    assert_eq!(
        confirm_deployment_failure(&mut ctx, OTHER_HASH, String::new(), T0),
        Err(ErrorCode::ProgramPaused)
    );

    let mut ctx = base;
    ctx.deploy_request.status = DeployRequestStatus::Active;
    assert_eq!(
        confirm_deployment_failure(&mut ctx, OTHER_HASH, String::new(), T0),
        Err(ErrorCode::InvalidRequestId)
    );
    assert_eq!(
        confirm_deployment_failure(&mut ctx, HASH, String::new(), T0),
        Err(ErrorCode::InvalidRequestStatus)
    );

    let mut ctx = base;
    ctx.deploy_request.monthly_fee = u64::MAX;
    assert_eq!(
        confirm_deployment_failure(&mut ctx, HASH, String::new(), T0),
        Err(ErrorCode::CalculationOverflow)
    );

    let mut ctx = base;
    ctx.deploy_request.service_fee = 1_000_000_000_000_000_000;
    assert_eq!(
        confirm_deployment_failure(&mut ctx, HASH, String::new(), T0),
        Err(ErrorCode::FeeAmountTooLarge)
    );

    let mut ctx = base;
    ctx.reward_pool.lamports = 129_999;
    let before = ctx;
    assert_eq!(
        confirm_deployment_failure(&mut ctx, HASH, String::new(), T0),
        Err(ErrorCode::InsufficientTreasuryFunds)
    );
    assert_eq!(ctx, before);

    let mut ctx = base;
    ctx.developer_wallet.lamports = u64::MAX - 129_999;
    let before = ctx;
    assert_eq!(
        confirm_deployment_failure(&mut ctx, HASH, String::new(), T0),
        Err(ErrorCode::CalculationOverflow)
    );
    assert_eq!(ctx, before);

    let mut ctx = base;
    ctx.ephemeral_key.lamports = 5;
    ctx.treasury_pool.liquid_balance = u64::MAX - 4;
    let before = ctx;
    assert_eq!(
        confirm_deployment_failure(&mut ctx, HASH, String::new(), T0),
        Err(ErrorCode::CalculationOverflow)
    );
    assert_eq!(ctx, before);

    let mut ctx = base;
    ctx.ephemeral_key.lamports = 5;
    ctx.treasury_pda.lamports = u64::MAX - 4;
    let before = ctx;
    assert_eq!(
        confirm_deployment_failure(&mut ctx, HASH, String::new(), T0),
        Err(ErrorCode::CalculationOverflow)
    );
    assert_eq!(ctx, before);

    let mut ctx = base;
    ctx.treasury_pool.reward_pool_balance = 129_999;
    let before = ctx;
    assert_eq!(
        confirm_deployment_failure(&mut ctx, HASH, String::new(), T0),
        Err(ErrorCode::CalculationOverflow)
    );
    assert_eq!(ctx, before);
}

#[test]
fn success_recovers_the_smaller_of_asked_and_held() {
    let mut ctx = confirm_context();
    ctx.ephemeral_key.lamports = 1_200;
    let event = confirm_deployment_success(&mut ctx, HASH, id(40), 5_000, T0 + 9).unwrap();
    assert_eq!(
        event,
        DeploymentConfirmed {
            request_id: HASH,
            developer: developer(),
            deployed_program_id: id(40),
            deployment_cost: 50_000_000,
            recovered_funds: 1_200,
            confirmed_at: T0 + 9,
        }
    );
    assert_eq!(ctx.deploy_request.status, DeployRequestStatus::Active);
    assert_eq!(ctx.deploy_request.deployed_program_id, Some(id(40)));
    assert_eq!(ctx.treasury_pool.liquid_balance, 1_200);
    assert_eq!(ctx.treasury_pool.platform_pool_balance, 50_000);
    assert_eq!(ctx.treasury_pool.reward_pool_balance, 130_000);
    assert_eq!(ctx.ephemeral_key.lamports, 1_200);
    assert_eq!(ctx.treasury_pda.lamports, 1_000);

    let mut ctx = confirm_context();
    ctx.ephemeral_key.lamports = 9_000;
    let event = confirm_deployment_success(&mut ctx, HASH, id(40), 5_000, T0).unwrap();
    assert_eq!(event.recovered_funds, 5_000);
    assert_eq!(ctx.treasury_pool.liquid_balance, 5_000);

    let mut ctx = confirm_context();
    ctx.ephemeral_key.lamports = 9_000;
    let event = confirm_deployment_success(&mut ctx, HASH, id(40), 0, T0).unwrap();
    assert_eq!(event.recovered_funds, 0);
    assert_eq!(ctx.treasury_pool.liquid_balance, 0);
}

#[test]
fn success_refusals_in_their_order() {
    let base = confirm_context();

    let mut ctx = base;
    ctx.admin = id(9);
    assert_eq!(
        confirm_deployment_success(&mut ctx, HASH, id(40), 0, T0),
        Err(ErrorCode::Unauthorized)
    );

    let mut ctx = base;
    ctx.treasury_pool.emergency_pause = true;
    assert_eq!(
        confirm_deployment_success(&mut ctx, HASH, id(40), 0, T0),
        Err(ErrorCode::ProgramPaused)
    );

    let mut ctx = base;
    assert_eq!(
        confirm_deployment_success(&mut ctx, OTHER_HASH, id(40), 50_000_001, T0),
        Err(ErrorCode::InvalidRequestId)
    );
    assert_eq!(
        confirm_deployment_success(&mut ctx, HASH, id(40), 50_000_001, T0),
        Err(ErrorCode::InvalidRecoveredFunds)
    );
    assert_eq!(ctx, base);

    let mut ctx = base;
    ctx.deploy_request.ephemeral_key = Some(id(31));
    let before = ctx;
    assert_eq!(
        confirm_deployment_success(&mut ctx, HASH, id(40), 50_000_000, T0),
        Err(ErrorCode::InvalidEphemeralKey)
    );
    assert_eq!(ctx, before);
    ctx.deploy_request.ephemeral_key = Some(id(30));
    assert!(confirm_deployment_success(&mut ctx, HASH, id(40), 50_000_000, T0).is_ok());

    let mut ctx = base;
    ctx.ephemeral_key.lamports = 10;
    ctx.treasury_pool.liquid_balance = u64::MAX - 9;
    let before = ctx;
    assert_eq!(
        confirm_deployment_success(&mut ctx, HASH, id(40), 10, T0),
        Err(ErrorCode::CalculationOverflow)
    );
    assert_eq!(ctx, before);
}

#[test]
fn funding_designates_the_escrow_and_records_what_was_borrowed() {
    let (mut pool, request) = pending_request();
    pool.reward_pool_balance = 60_000_000;
    pool.platform_pool_balance = 70_000_000;
    let base = FundTemporaryWallet {
        treasury_pool: pool,
        deploy_request: request,
        admin: admin(),
        admin_pool: holder(4, 70_000_000),
        reward_pool: holder(3, 60_000_000),
        temporary_wallet: holder(30, 11),
    };

    let mut ctx = base;
    let event = fund_temporary_wallet(&mut ctx, HASH, 50_000_000, false, T0 + 3).unwrap();
    assert_eq!(
        event,
        TemporaryWalletFunded {
            request_id: HASH,
            temporary_wallet: id(30),
            amount: 50_000_000,
            funded_at: T0 + 3,
        }
    );
    assert_eq!(ctx.deploy_request.ephemeral_key, Some(id(30)));
    assert_eq!(ctx.deploy_request.borrowed_amount, 50_000_000);
    assert_eq!(ctx.deploy_request.status, DeployRequestStatus::PendingDeployment);
    assert_eq!(ctx.treasury_pool.reward_pool_balance, 10_000_000);
    assert_eq!(ctx.treasury_pool.platform_pool_balance, 70_000_000);
    assert_eq!(ctx.reward_pool.lamports, 10_000_000);
    assert_eq!(ctx.admin_pool.lamports, 70_000_000);
    assert_eq!(ctx.temporary_wallet.lamports, 50_000_011);

    let mut ctx = base;
    fund_temporary_wallet(&mut ctx, HASH, 50_000_000, true, T0 + 3).unwrap();
    assert_eq!(ctx.treasury_pool.reward_pool_balance, 60_000_000);
    assert_eq!(ctx.treasury_pool.platform_pool_balance, 20_000_000);
    assert_eq!(ctx.reward_pool.lamports, 60_000_000);
    assert_eq!(ctx.admin_pool.lamports, 20_000_000);
    assert_eq!(ctx.temporary_wallet.lamports, 50_000_011);

    let mut ctx = base;
    ctx.admin = id(9);
    assert_eq!(
        fund_temporary_wallet(&mut ctx, HASH, 50_000_000, false, T0),
        Err(ErrorCode::Unauthorized)
    );
    let mut ctx = base;
    ctx.treasury_pool.emergency_pause = true;
    assert_eq!(
        fund_temporary_wallet(&mut ctx, HASH, 50_000_000, false, T0),
        Err(ErrorCode::ProgramPaused)
    );
    let mut ctx = base;
    assert_eq!(
        fund_temporary_wallet(&mut ctx, OTHER_HASH, 50_000_000, false, T0),
        Err(ErrorCode::InvalidRequestId)
    );
    assert_eq!(fund_temporary_wallet(&mut ctx, HASH, 0, false, T0), Err(ErrorCode::InvalidAmount));
    assert_eq!(
        fund_temporary_wallet(&mut ctx, HASH, 49_999_999, false, T0),
        Err(ErrorCode::InvalidAmount)
    );
    assert_eq!(ctx, base);
    let mut ctx = base;
    ctx.deploy_request.status = DeployRequestStatus::Active;
    assert_eq!(
        fund_temporary_wallet(&mut ctx, HASH, 50_000_000, false, T0),
        Err(ErrorCode::InvalidRequestStatus)
    );
    let mut ctx = base;
    ctx.treasury_pool.reward_pool_balance = 49_999_999;
    assert_eq!(
        fund_temporary_wallet(&mut ctx, HASH, 50_000_000, false, T0),
        Err(ErrorCode::InsufficientTreasuryFunds)
    );
    let mut ctx = base;
    ctx.admin_pool.lamports = 49_999_999;
    let before = ctx;
    assert_eq!(
        fund_temporary_wallet(&mut ctx, HASH, 50_000_000, true, T0),
        Err(ErrorCode::InsufficientTreasuryFunds)
    );
    assert_eq!(ctx, before);
    let mut ctx = base;
    ctx.temporary_wallet.lamports = u64::MAX - 49_999_999;
    let before = ctx;
    assert_eq!(
        fund_temporary_wallet(&mut ctx, HASH, 50_000_000, false, T0),
        Err(ErrorCode::CalculationOverflow)
    );
    assert_eq!(ctx, before);
}

fn active_payment_context() -> PaySubscription {
    let (mut pool, mut request) = pending_request();
    request.status = DeployRequestStatus::Active;
    pool.total_deposited = 1_000_000;
    PaySubscription { treasury_pool: pool, deploy_request: request, developer: developer() }
}

#[test]
fn renewal_extends_the_subscription_and_credits_the_payment() {
    let mut ctx = active_payment_context();
    let event = pay_subscription(&mut ctx, HASH, 2).unwrap();
    assert_eq!(
        event,
        SubscriptionPaid {
            request_id: HASH,
            developer: developer(),
            months: 2,
            payment_amount: 20_000,
            subscription_valid_until: T0 + 5 * MONTH,
        }
    );
    assert_eq!(ctx.deploy_request.subscription_paid_until, T0 + 5 * MONTH);
    assert_eq!(ctx.deploy_request.status, DeployRequestStatus::Active);
    assert_eq!(ctx.treasury_pool.reward_pool_balance, 150_000);
    assert_eq!(ctx.treasury_pool.platform_pool_balance, 50_000);
    assert_eq!(ctx.treasury_pool.reward_per_share, 20_000_000_000);

    let mut ctx = active_payment_context();
    ctx.deploy_request.status = DeployRequestStatus::SubscriptionExpired;
    assert!(pay_subscription(&mut ctx, HASH, 1).is_ok());
    assert_eq!(ctx.deploy_request.status, DeployRequestStatus::Active);
    assert_eq!(ctx.deploy_request.subscription_paid_until, T0 + 4 * MONTH);
}

#[test]
fn renewal_refusals_in_their_order() {
    let base = active_payment_context();

    let mut ctx = base;
    ctx.treasury_pool.emergency_pause = true;
    assert_eq!(pay_subscription(&mut ctx, OTHER_HASH, 0), Err(ErrorCode::ProgramPaused));

    let mut ctx = base;
    ctx.developer = id(21);
    assert_eq!(pay_subscription(&mut ctx, OTHER_HASH, 0), Err(ErrorCode::InvalidRequestId));
    assert_eq!(pay_subscription(&mut ctx, HASH, 0), Err(ErrorCode::Unauthorized));

    let mut ctx = base;
    ctx.deploy_request.status = DeployRequestStatus::PendingDeployment;
    assert_eq!(pay_subscription(&mut ctx, HASH, 0), Err(ErrorCode::InvalidAmount));
    assert_eq!(pay_subscription(&mut ctx, HASH, 1), Err(ErrorCode::InvalidRequestStatus));
    for status in [
        DeployRequestStatus::Suspended,
        DeployRequestStatus::Failed,
        DeployRequestStatus::Cancelled,
        DeployRequestStatus::Closed,
    ] {
        ctx.deploy_request.status = status;
        assert_eq!(pay_subscription(&mut ctx, HASH, 1), Err(ErrorCode::InvalidRequestStatus));
    }

    let mut ctx = base;
    ctx.deploy_request.monthly_fee = u64::MAX;
    let before = ctx;
    assert_eq!(pay_subscription(&mut ctx, HASH, 2), Err(ErrorCode::CalculationOverflow));
    assert_eq!(ctx, before);

    let mut ctx = base;
    ctx.deploy_request.subscription_paid_until = i64::MAX - MONTH + 1;
    let before = ctx;
    assert_eq!(pay_subscription(&mut ctx, HASH, 1), Err(ErrorCode::CalculationOverflow));
    assert_eq!(ctx, before);

    let mut ctx = base;
    ctx.deploy_request.monthly_fee = 1_000_000_000_000_000_001;
    let before = ctx;
    assert_eq!(pay_subscription(&mut ctx, HASH, 1), Err(ErrorCode::FeeAmountTooLarge));
    assert_eq!(ctx, before);
}

#[test]
fn subscription_validity_and_extension() {
    let (_, mut request) = pending_request();
    assert!(request.is_subscription_valid(T0 + 3 * MONTH));
    assert!(!request.is_subscription_valid(T0 + 3 * MONTH + 1));
    assert_eq!(request.extend_subscription(1), Ok(()));
    assert_eq!(request.subscription_paid_until, T0 + 4 * MONTH);
    assert_eq!(request.extend_subscription(0), Ok(()));
    assert_eq!(request.subscription_paid_until, T0 + 4 * MONTH);
    request.subscription_paid_until = i64::MAX - 1;
    assert_eq!(request.extend_subscription(1), Err(ErrorCode::CalculationOverflow));
    assert_eq!(request.subscription_paid_until, i64::MAX - 1);
    assert_eq!(DeployRequest::SECONDS_PER_MONTH, 30 * 24 * 60 * 60);
    assert!(blank_request().blank());
    assert!(!request.blank());
}

#[test]
fn close_returns_what_was_recovered_to_the_liquid_balance() {
    let (mut pool, mut request) = pending_request();
    request.status = DeployRequestStatus::Active;
    request.deployed_program_id = Some(id(40));
    pool.total_deposited = 500;
    pool.liquid_balance = 100;
    let base = CloseProgramAndRefund { treasury_pool: pool, deploy_request: request, admin: admin() };

    let mut ctx = base;
    let event = close_program_and_refund(&mut ctx, HASH, 2_000, T0 + 77).unwrap();
    assert_eq!(
        event,
        ProgramClosed {
            request_id: HASH,
            program_id: id(40),
            developer: developer(),
            recovered_lamports: 2_000,
            closed_at: T0 + 77,
        }
    );
    assert_eq!(ctx.treasury_pool.liquid_balance, 2_100);
    assert_eq!(ctx.treasury_pool.total_deposited, 500);
    assert_eq!(ctx.deploy_request.status, DeployRequestStatus::Closed);

    let mut ctx = base;
    ctx.deploy_request.deployed_program_id = None;
    let event = close_program_and_refund(&mut ctx, HASH, 1, T0).unwrap();
    assert_eq!(event.program_id, Pubkey::default());

    let mut ctx = base;
    ctx.admin = id(9);
    ctx.deploy_request.status = DeployRequestStatus::Closed;
    assert_eq!(
        close_program_and_refund(&mut ctx, OTHER_HASH, 1, T0),
        Err(ErrorCode::InvalidRequestId)
    );
    assert_eq!(
        close_program_and_refund(&mut ctx, HASH, 1, T0),
        Err(ErrorCode::InvalidDeploymentStatus)
    );
    let mut ctx = base;
    ctx.admin = id(9);
    ctx.treasury_pool.emergency_pause = true;
    assert_eq!(close_program_and_refund(&mut ctx, HASH, 1, T0), Err(ErrorCode::Unauthorized));
    ctx.admin = admin();
    assert_eq!(close_program_and_refund(&mut ctx, HASH, 0, T0), Err(ErrorCode::ProgramPaused));
    let mut ctx = base;
    assert_eq!(close_program_and_refund(&mut ctx, HASH, 0, T0), Err(ErrorCode::InvalidAmount));
    assert_eq!(
        close_program_and_refund(&mut ctx, HASH, u64::MAX - 99, T0),
        Err(ErrorCode::CalculationOverflow)
    );
    assert_eq!(ctx, base);
}

#[test]
fn developer_request_needs_liquid_principal_and_its_own_record() {
    let mut pool = new_pool();
    pool.liquid_balance = 50_000_000;
    let base = RequestDeploymentFunds {
        treasury_pool: pool,
        deploy_request: blank_request(),
        user_stats: blank_stats(),
        developer: developer(),
        admin: admin(),
    };

    let mut ctx = base;
    let event =
        request_deployment_funds(&mut ctx, HASH, 100_000, 10_000, 3, 50_000_000, T0).unwrap();
    assert_eq!(event.total_payment, 180_000);
    assert_eq!(event.request_id, HASH);
    assert_eq!(ctx.treasury_pool.reward_pool_balance, 130_000);
    assert_eq!(ctx.treasury_pool.platform_pool_balance, 50_000);
    assert_eq!(ctx.treasury_pool.liquid_balance, 50_000_000);
    assert_eq!(ctx.deploy_request.status, DeployRequestStatus::PendingDeployment);
    assert_eq!(ctx.deploy_request.developer, developer());
    assert_eq!(ctx.user_stats.active_sessions, 1);
    let opened = ctx;

    let mut ctx = opened;
    assert!(request_deployment_funds(&mut ctx, HASH, 1, 1, 1, 1, T0).is_ok());
    let mut ctx = opened;
    ctx.developer = id(21);
    assert_eq!(
        request_deployment_funds(&mut ctx, HASH, 1, 1, 1, 1, T0),
        Err(ErrorCode::InvalidRequestId)
    );
    let mut ctx = opened;
    assert_eq!(
        request_deployment_funds(&mut ctx, OTHER_HASH, 1, 1, 1, 1, T0),
        Err(ErrorCode::InvalidRequestId)
    );
    assert_eq!(ctx, opened);

    let mut ctx = base;
    assert_eq!(
        request_deployment_funds(&mut ctx, HASH, 1, 1, 1, 50_000_001, T0),
        Err(ErrorCode::InsufficientTreasuryFunds)
    );
    assert_eq!(
        request_deployment_funds(&mut ctx, HASH, 1, 1, 0, 50_000_001, T0),
        Err(ErrorCode::InvalidAmount)
    );
    ctx.treasury_pool.emergency_pause = true;
    assert_eq!(
        request_deployment_funds(&mut ctx, HASH, 1, 1, 0, 1, T0),
        Err(ErrorCode::ProgramPaused)
    );
    ctx.admin = id(9);
    assert_eq!(
        request_deployment_funds(&mut ctx, HASH, 1, 1, 0, 1, T0),
        Err(ErrorCode::Unauthorized)
    );
}

#[test]
fn one_step_deployment_lends_the_cost_to_the_escrow() {
    let mut pool = new_pool();
    pool.liquid_balance = 80_000_000;
    pool.total_deposited = 80_000_000;
    let base = DeployProgram {
        treasury_pool: pool,
        deploy_request: blank_request(),
        user_stats: blank_stats(),
        developer: developer(),
        admin: admin(),
        ephemeral_key: id(30),
    };

    let mut ctx = base;
    let event = deploy_program(&mut ctx, HASH, 100_000, 10_000, 3, 50_000_000, T0).unwrap();
    assert_eq!(
        event,
        ProgramDeployed {
            request_id: HASH,
            developer: developer(),
            program_hash: HASH,
            service_fee: 100_000,
            monthly_fee: 10_000,
            initial_months: 3,
            deployment_cost: 50_000_000,
            ephemeral_key: id(30),
            total_payment: 180_000,
            deployed_at: T0,
        }
    );
    assert_eq!(ctx.treasury_pool.liquid_balance, 30_000_000);
    assert_eq!(ctx.treasury_pool.total_deposited, 80_000_000);
    assert_eq!(ctx.treasury_pool.reward_pool_balance, 130_000);
    assert_eq!(ctx.treasury_pool.platform_pool_balance, 50_000);
    assert_eq!(ctx.treasury_pool.reward_per_share, 130_000 * 1_000_000_000_000 / 80_000_000);
    assert_eq!(ctx.deploy_request.ephemeral_key, Some(id(30)));
    assert_eq!(ctx.deploy_request.borrowed_amount, 50_000_000);
    assert_eq!(ctx.deploy_request.status, DeployRequestStatus::PendingDeployment);
    assert_eq!(ctx.deploy_request.created_at, T0);
    assert_eq!(ctx.user_stats.total_deploys, 1);

    let before = ctx;
    assert_eq!(
        deploy_program(&mut ctx, HASH, 100_000, 10_000, 3, 1, T0),
        Err(ErrorCode::InvalidRequestId)
    );
    assert_eq!(ctx, before);

    let mut ctx = base;
    assert_eq!(
        deploy_program(&mut ctx, HASH, 1, 1, 1, 80_000_001, T0),
        Err(ErrorCode::InsufficientTreasuryFunds)
    );
    assert_eq!(deploy_program(&mut ctx, HASH, 0, 1, 1, 1, T0), Err(ErrorCode::InvalidAmount));
    ctx.admin = id(9);
    assert_eq!(deploy_program(&mut ctx, HASH, 1, 1, 1, 1, T0), Err(ErrorCode::Unauthorized));
    ctx.admin = admin();
    ctx.treasury_pool.emergency_pause = true;
    assert_eq!(deploy_program(&mut ctx, HASH, 1, 1, 1, 1, T0), Err(ErrorCode::ProgramPaused));
}
