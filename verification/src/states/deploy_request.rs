use vstd::prelude::*;
use crate::errors::ErrorCode;
use crate::pubkey::{all_zero, bytes_equal, is_zero, Pubkey};

verus! {

/// Where a deployment session stands.
#[derive(Clone, Copy, Debug, PartialEq, Eq, Structural)]
pub enum DeployRequestStatus {
    /// Paid for, waiting for the deployment.
    PendingDeployment,
    /// Deployed, subscription paid.
    Active,
    /// The subscription has run out.
    SubscriptionExpired,
    /// Suspended for non-payment.
    Suspended,
    /// The deployment failed.
    Failed,
    /// Cancelled by the developer.
    Cancelled,
    /// Closed, funds recovered.
    Closed,
}

/// What can be asked of a deployment session.
#[derive(Clone, Copy, Debug, PartialEq, Eq, Structural)]
pub enum RequestOperation {
    /// Open a session, or open it again under the same key.
    Create,
    /// Hand the deployment cost to an escrow identity.
    FundEscrow,
    /// Record that the deployment succeeded.
    ConfirmSuccess,
    /// Record that the deployment failed.
    ConfirmFailure,
    /// Renew the subscription.
    PaySubscription,
    /// Close the session and take back what the program held.
    Close,
}

impl DeployRequestStatus {
    /// The transition table: the status that `operation` leaves a session in
    /// when it finds it in status `self`, or `None` where the operation is
    /// not allowed.
    pub open spec fn next_status(self, operation: RequestOperation) -> Option<
        DeployRequestStatus,
    > {
        match operation {
            RequestOperation::Create => Some(DeployRequestStatus::PendingDeployment),
            RequestOperation::FundEscrow => if self == DeployRequestStatus::PendingDeployment {
                Some(DeployRequestStatus::PendingDeployment)
            } else {
                None
            },
            RequestOperation::ConfirmSuccess => if self == DeployRequestStatus::PendingDeployment {
                Some(DeployRequestStatus::Active)
            } else {
                None
            },
            RequestOperation::ConfirmFailure => if self == DeployRequestStatus::PendingDeployment {
                Some(DeployRequestStatus::Failed)
            } else {
                None
            },
            RequestOperation::PaySubscription => if self == DeployRequestStatus::Active || self
                == DeployRequestStatus::SubscriptionExpired {
                Some(DeployRequestStatus::Active)
            } else {
                None
            },
            RequestOperation::Close => if self == DeployRequestStatus::Active {
                Some(DeployRequestStatus::Closed)
            } else {
                None
            },
        }
    }

    /// Looks `operation` up in the transition table.
    pub fn transition(self, operation: RequestOperation) -> (next: Option<DeployRequestStatus>)
        ensures
            next == self.next_status(operation),
    {
        match operation {
            RequestOperation::Create => Some(DeployRequestStatus::PendingDeployment),
            RequestOperation::FundEscrow => match self {
                DeployRequestStatus::PendingDeployment => Some(
                    DeployRequestStatus::PendingDeployment,
                ),
                _ => None,
            },
            RequestOperation::ConfirmSuccess => match self {
                DeployRequestStatus::PendingDeployment => Some(DeployRequestStatus::Active),
                _ => None,
            },
            RequestOperation::ConfirmFailure => match self {
                DeployRequestStatus::PendingDeployment => Some(DeployRequestStatus::Failed),
                _ => None,
            },
            RequestOperation::PaySubscription => match self {
                DeployRequestStatus::Active => Some(DeployRequestStatus::Active),
                DeployRequestStatus::SubscriptionExpired => Some(DeployRequestStatus::Active),
                _ => None,
            },
            RequestOperation::Close => match self {
                DeployRequestStatus::Active => Some(DeployRequestStatus::Closed),
                _ => None,
            },
        }
    }

    /// Whether a session in this status has ended, so that its key may be
    /// taken over for another session.
    pub open spec fn is_ended(self) -> bool {
        ||| self == DeployRequestStatus::Failed
        ||| self == DeployRequestStatus::Cancelled
        ||| self == DeployRequestStatus::Closed
        ||| self == DeployRequestStatus::SubscriptionExpired
        ||| self == DeployRequestStatus::Suspended
    }
}

/// What a developer owes when a session is opened.
#[derive(Clone, Copy, Debug, PartialEq, Eq)]
pub struct SessionFees {
    /// The service fee and the subscription for the first months: owed to
    /// the reward pool.
    pub reward_fee: u64,
    /// A thousandth of the deployment cost: owed to the platform pool.
    pub platform_fee: u64,
    /// Both together.
    pub total_payment: u64,
}

impl SessionFees {
    /// The reward fee: `monthly_fee * months + service_fee`.
    pub open spec fn reward_fee_of(service_fee: u64, monthly_fee: u64, months: u32) -> int {
        monthly_fee as int * months as int + service_fee as int
    }

    /// The platform fee: a thousandth of the deployment cost, rounded down.
    pub open spec fn platform_fee_of(deployment_cost: u64) -> int {
        deployment_cost as int / 1000
    }

    /// Whether the fees, or their sum, do not fit in 64 bits.
    pub open spec fn overflows(
        service_fee: u64,
        monthly_fee: u64,
        months: u32,
        deployment_cost: u64,
    ) -> bool {
        Self::reward_fee_of(service_fee, monthly_fee, months) + Self::platform_fee_of(
            deployment_cost,
        ) > u64::MAX
    }

    /// The fees for a session with the given prices.
    pub open spec fn of(
        service_fee: u64,
        monthly_fee: u64,
        months: u32,
        deployment_cost: u64,
    ) -> SessionFees {
        SessionFees {
            reward_fee: Self::reward_fee_of(service_fee, monthly_fee, months) as u64,
            platform_fee: Self::platform_fee_of(deployment_cost) as u64,
            total_payment: (Self::reward_fee_of(service_fee, monthly_fee, months)
                + Self::platform_fee_of(deployment_cost)) as u64,
        }
    }

    /// Works out the reward fee: `monthly_fee * months + service_fee`.
    /// Refused when it does not fit in 64 bits.
    pub fn reward_fee(service_fee: u64, monthly_fee: u64, months: u32) -> (r: Result<
        u64,
        ErrorCode,
    >)
        ensures
            match r {
                Ok(fee) => fee == Self::reward_fee_of(service_fee, monthly_fee, months),
                Err(e) => e == ErrorCode::CalculationOverflow && Self::reward_fee_of(
                    service_fee,
                    monthly_fee,
                    months,
                ) > u64::MAX,
            },
    {
        let monthly_total = match monthly_fee.checked_mul(months as u64) {
            Some(v) => v,
            None => { return Err(ErrorCode::CalculationOverflow); },
        };
        match monthly_total.checked_add(service_fee) {
            Some(v) => Ok(v),
            None => Err(ErrorCode::CalculationOverflow),
        }
    }

    /// Works out the fees for a session: `monthly_fee * months + service_fee`
    /// for the reward pool and a thousandth of `deployment_cost` for the
    /// platform pool. Refused when their sum does not fit in 64 bits.
    pub fn compute(service_fee: u64, monthly_fee: u64, months: u32, deployment_cost: u64) -> (r:
        Result<SessionFees, ErrorCode>)
        ensures
            match r {
                Ok(fees) => !Self::overflows(service_fee, monthly_fee, months, deployment_cost)
                    && fees == Self::of(service_fee, monthly_fee, months, deployment_cost),
                Err(e) => e == ErrorCode::CalculationOverflow && Self::overflows(
                    service_fee,
                    monthly_fee,
                    months,
                    deployment_cost,
                ),
            },
    {
        let reward_fee = match Self::reward_fee(service_fee, monthly_fee, months) {
            Ok(v) => v,
            Err(e) => { return Err(e); },
        };
        let platform_fee: u64 = deployment_cost / 1000;
        let total_payment = match reward_fee.checked_add(platform_fee) {
            Some(v) => v,
            None => { return Err(ErrorCode::CalculationOverflow); },
        };
        Ok(SessionFees { reward_fee, platform_fee, total_payment })
    }
}

/// One deployment session, kept under the hash of the program it deploys.
#[derive(Clone, Copy, Debug, PartialEq, Eq)]
pub struct DeployRequest {
    /// The key of the session; all zero while the record is blank.
    pub request_id: [u8; 32],
    /// The developer who pays for the session.
    pub developer: Pubkey,
    /// Hash of the program to deploy.
    pub program_hash: [u8; 32],
    /// One-time service fee.
    pub service_fee: u64,
    /// Subscription fee per month.
    pub monthly_fee: u64,
    /// Months of subscription paid for when the session was opened.
    pub initial_months: u32,
    /// What the deployment costs the treasury.
    pub deployment_cost: u64,
    /// What the session has borrowed from the treasury.
    pub borrowed_amount: u64,
    /// The subscription is valid up to and including this time.
    pub subscription_paid_until: i64,
    /// The escrow identity that holds the borrowed funds, once designated.
    pub ephemeral_key: Option<Pubkey>,
    /// The deployed program, once confirmed.
    pub deployed_program_id: Option<Pubkey>,
    /// Where the session stands.
    pub status: DeployRequestStatus,
    /// When the session was opened.
    pub created_at: i64,
}

impl DeployRequest {
    /// Seconds that one paid month lasts: thirty days.
    pub const SECONDS_PER_MONTH: i64 = 2_592_000;

    /// A record is blank while it has neither a key nor a developer.
    pub open spec fn is_blank(self) -> bool {
        all_zero(self.request_id) && self.developer.is_unassigned()
    }

    /// Whether the key of this record may be taken over by another
    /// developer: its session has ended, or is pending with no escrow
    /// designated yet.
    pub open spec fn reset_eligible(self) -> bool {
        ||| self.status.is_ended()
        ||| (self.status == DeployRequestStatus::PendingDeployment && self.ephemeral_key is None)
    }

    /// Whether a new request for `program_hash` by `developer` collides with
    /// what the record holds: the record is in use and either belongs to
    /// another program, or belongs to another developer whose session can not
    /// be taken over.
    pub open spec fn conflicts_with(self, program_hash: [u8; 32], developer: Pubkey) -> bool {
        &&& !self.is_blank()
        &&& (self.program_hash != program_hash || (self.developer != developer
            && !self.reset_eligible()))
    }

    /// Whether a new request for `program_hash` by `developer` starts the
    /// record afresh (it is blank, or is taken over from another developer)
    /// rather than updating the developer's own session.
    pub open spec fn starts_afresh(self, developer: Pubkey) -> bool {
        self.is_blank() || self.developer != developer
    }

    /// The record once a session for `program_hash` has been opened on it by
    /// `developer` at time `now`: pending, with the prices as given, nothing
    /// borrowed, no escrow and no program. A record that starts afresh takes
    /// the hash as its key and `now` as its creation time; the developer's
    /// own record keeps both.
    pub open spec fn opened(
        self,
        program_hash: [u8; 32],
        developer: Pubkey,
        service_fee: u64,
        monthly_fee: u64,
        initial_months: u32,
        deployment_cost: u64,
        now: i64,
    ) -> DeployRequest {
        DeployRequest {
            request_id: if self.starts_afresh(developer) {
                program_hash
            } else {
                self.request_id
            },
            developer,
            program_hash,
            service_fee,
            monthly_fee,
            initial_months,
            deployment_cost,
            borrowed_amount: 0,
            subscription_paid_until: (now + Self::extension(initial_months)) as i64,
            ephemeral_key: None,
            deployed_program_id: None,
            status: DeployRequestStatus::PendingDeployment,
            created_at: if self.starts_afresh(developer) {
                now
            } else {
                self.created_at
            },
        }
    }

    /// Opens a session for `program_hash` on this record, whatever it held:
    /// the operations that call this first make sure that the request does
    /// not collide with the record. Refused, with the record unchanged, when
    /// the end of the subscription does not fit in 64 bits.
    pub(crate) fn open(
        &mut self,
        program_hash: [u8; 32],
        developer: Pubkey,
        service_fee: u64,
        monthly_fee: u64,
        initial_months: u32,
        deployment_cost: u64,
        now: i64,
    ) -> (r: Result<(), ErrorCode>)
        ensures
            match r {
                Ok(_) => now + Self::extension(initial_months) <= i64::MAX && *final(self) == old(self).opened(
                    program_hash,
                    developer,
                    service_fee,
                    monthly_fee,
                    initial_months,
                    deployment_cost,
                    now,
                ),
                Err(e) => e == ErrorCode::CalculationOverflow && now + Self::extension(
                    initial_months,
                ) > i64::MAX && *final(self) == *old(self),
            },
    {
        let extension_seconds: i64 = initial_months as i64 * Self::SECONDS_PER_MONTH;
        let until = match now.checked_add(extension_seconds) {
            Some(v) => v,
            None => { return Err(ErrorCode::CalculationOverflow); },
        };
        let status = match self.status.transition(RequestOperation::Create) {
            Some(next) => next,
            None => { return Err(ErrorCode::InvalidDeploymentStatus); },
        };
        if self.blank() || self.developer != developer {
            self.request_id = program_hash;
            self.created_at = now;
        }
        self.developer = developer;
        self.program_hash = program_hash;
        self.service_fee = service_fee;
        self.monthly_fee = monthly_fee;
        self.initial_months = initial_months;
        self.deployment_cost = deployment_cost;
        self.borrowed_amount = 0;
        self.subscription_paid_until = until;
        self.ephemeral_key = None;
        self.deployed_program_id = None;
        self.status = status;
        Ok(())
    }

    /// The seconds that `months` paid months last.
    pub open spec fn extension(months: u32) -> int {
        months as int * Self::SECONDS_PER_MONTH as int
    }

    /// Whether the record is blank.
    pub fn blank(&self) -> (r: bool)
        ensures
            r == self.is_blank(),
    {
        is_zero(&self.request_id) && self.developer.is_default()
    }

    /// Whether another developer may take over the key of this record.
    pub fn can_reset(&self) -> (r: bool)
        ensures
            r == self.reset_eligible(),
    {
        match self.status {
            DeployRequestStatus::Failed => true,
            DeployRequestStatus::Cancelled => true,
            DeployRequestStatus::Closed => true,
            DeployRequestStatus::SubscriptionExpired => true,
            DeployRequestStatus::Suspended => true,
            DeployRequestStatus::PendingDeployment => self.ephemeral_key.is_none(),
            DeployRequestStatus::Active => false,
        }
    }

    /// Whether a new request for `program_hash` by `developer` collides with
    /// what the record holds.
    pub fn conflicts(&self, program_hash: &[u8; 32], developer: &Pubkey) -> (r: bool)
        ensures
            r == self.conflicts_with(*program_hash, *developer),
    {
        if self.blank() {
            return false;
        }
        if !bytes_equal(&self.program_hash, program_hash) {
            return true;
        }
        if self.developer == *developer {
            return false;
        }
        !self.can_reset()
    }

    /// Whether the subscription is still valid at `current_time`.
    pub fn is_subscription_valid(&self, current_time: i64) -> (valid: bool)
        ensures
            valid == (current_time <= self.subscription_paid_until),
    {
        current_time <= self.subscription_paid_until
    }

    /// Extends the subscription by `months` months of thirty days. Refused,
    /// with the record unchanged, when the new end does not fit in 64 bits.
    pub fn extend_subscription(&mut self, months: u32) -> (r: Result<(), ErrorCode>)
        ensures
            match r {
                Ok(_) => old(self).subscription_paid_until + Self::extension(months) <= i64::MAX
                    && *final(self) == (DeployRequest {
                    subscription_paid_until: (old(self).subscription_paid_until + Self::extension(
                        months,
                    )) as i64,
                    ..*old(self)
                }),
                Err(e) => e == ErrorCode::CalculationOverflow && old(self).subscription_paid_until
                    + Self::extension(months) > i64::MAX && *final(self) == *old(self),
            },
    {
        let extension_seconds: i64 = months as i64 * Self::SECONDS_PER_MONTH;
        match self.subscription_paid_until.checked_add(extension_seconds) {
            Some(until) => {
                self.subscription_paid_until = until;
                Ok(())
            },
            None => Err(ErrorCode::CalculationOverflow),
        }
    }
}

} // verus!
