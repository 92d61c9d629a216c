use vstd::prelude::*;

use crate::salt::{deploy_salt, spec_deploy_salt};

verus! {

/// Number of contracts deployed for one governor stack
/// (token-votes, timelock, governor).
pub const DEPLOYED_CONTRACT_COUNT: i128 = 3;

/// Minimum reserve, in stroops, that each deployed contract locks.
pub const MIN_CONTRACT_RESERVE_STROOPS: i128 = 5_000_000;

/// Execution window handed to every new timelock (14 days, in seconds).
pub const DEFAULT_EXECUTION_WINDOW: u64 = 1_209_600;

/// Largest quorum numerator a governor accepts (100 %).
pub const MAX_QUORUM_NUMERATOR: u32 = 100;

/// Salt suffixes of the three contracts of a governor stack.
pub const TOKEN_VOTES_SALT_SUFFIX: u8 = 1;
pub const TIMELOCK_SALT_SUFFIX: u8 = 2;
pub const GOVERNOR_SALT_SUFFIX: u8 = 3;

/// A 32-byte WASM code hash.
pub type WasmHash = [u8; 32];

/// Error codes returned by the governor factory.
#[derive(Clone, Copy, Debug, PartialEq, Eq, Structural)]
pub enum FactoryError {
    InvalidVotingPeriod,
    InvalidQuorumNumerator,
    InvalidTimelockDelay,
    InvalidVoteType,
    InsufficientBalance,
    WasmNotFound,
}

/// The stable contract error code of each factory error.
pub open spec fn factory_error_code(e: FactoryError) -> u32 {
    match e {
        FactoryError::InvalidVotingPeriod => 1,
        FactoryError::InvalidQuorumNumerator => 2,
        FactoryError::InvalidTimelockDelay => 3,
        FactoryError::InvalidVoteType => 4,
        FactoryError::InsufficientBalance => 5,
        FactoryError::WasmNotFound => 6,
    }
}

impl FactoryError {
    /// The numeric code under which the error is reported to callers.
    pub fn code(&self) -> (c: u32)
        ensures
            c == factory_error_code(*self),
    {
        match self {
            FactoryError::InvalidVotingPeriod => 1,
            FactoryError::InvalidQuorumNumerator => 2,
            FactoryError::InvalidTimelockDelay => 3,
            FactoryError::InvalidVoteType => 4,
            FactoryError::InsufficientBalance => 5,
            FactoryError::WasmNotFound => 6,
        }
    }
}

/// Why the factory refused a request. Each refusal aborts the whole request,
/// so nothing it would have written is kept.
#[derive(Clone, Copy, Debug, PartialEq, Eq, Structural)]
pub enum FactoryFault {
    /// `initialize` was called on a factory that already has an admin.
    AlreadyInitialized,
    /// An admin-only call reached a factory without an admin.
    NotInitialized,
    /// The caller of an admin-only call is not the stored admin.
    NotAdmin,
    /// No governor WASM hash is stored.
    GovernorWasmNotSet,
    /// No timelock WASM hash is stored.
    TimelockWasmNotSet,
    /// No token-votes WASM hash is stored.
    TokenVotesWasmNotSet,
    /// No governor is registered under the requested id.
    GovernorNotFound,
    /// A refusal reported with a factory error code.
    Rejected(FactoryError),
}

/// Counting rule of a governor.
#[derive(Clone, Copy, Debug, PartialEq, Eq, Structural)]
pub enum VoteType {
    Simple,
    Extended,
    Quadratic,
}

/// The vote type that a numeric code selects: 0 is simple, 1 extended,
/// 2 quadratic, and any other code falls back to extended.
pub open spec fn vote_type_of(code: u32) -> VoteType {
    if code == 0 {
        VoteType::Simple
    } else if code == 2 {
        VoteType::Quadratic
    } else {
        VoteType::Extended
    }
}

impl VoteType {
    /// Converts the numeric vote type accepted by `deploy` into a [`VoteType`].
    pub fn from_code(code: u32) -> (v: VoteType)
        ensures
            v == vote_type_of(code),
    {
        match code {
            0 => VoteType::Simple,
            1 => VoteType::Extended,
            2 => VoteType::Quadratic,
            _ => VoteType::Extended,
        }
    }
}

/// Registry entry for a deployed governor. Addresses are held in their
/// string (strkey) form.
#[derive(Debug)]
pub struct GovernorEntry {
    pub id: u64,
    pub governor: String,
    pub timelock: String,
    pub token: String,
    pub deployer: String,
}

impl Clone for GovernorEntry {
    fn clone(&self) -> (r: Self)
        ensures
            r == *self,
    {
        GovernorEntry {
            id: self.id,
            governor: self.governor.clone(),
            timelock: self.timelock.clone(),
            token: self.token.clone(),
            deployer: self.deployer.clone(),
        }
    }
}

/// Published after a successful deployment, carrying the addresses of every
/// contract of the new governor stack.
#[derive(Debug)]
pub struct GovernorDeployedEvent {
    pub id: u64,
    pub governor: String,
    pub timelock: String,
    pub token_votes: String,
    pub deployer: String,
    pub timestamp: u64,
}

/// What must be deployed and initialised for a new governor stack: the id it
/// will be registered under, the code and salt of each contract, and the
/// settings that the factory itself chooses.
#[derive(Debug)]
pub struct DeployPlan {
    pub id: u64,
    pub token_votes_wasm: WasmHash,
    pub token_votes_salt: [u8; 32],
    pub timelock_wasm: WasmHash,
    pub timelock_salt: [u8; 32],
    pub governor_wasm: WasmHash,
    pub governor_salt: [u8; 32],
    pub vote_type: VoteType,
    pub execution_window: u64,
}

/// The arguments of a `deploy` request.
#[derive(Debug)]
pub struct DeployRequest {
    pub deployer: String,
    pub token: String,
    pub voting_delay: u32,
    pub voting_period: u32,
    pub quorum_numerator: u32,
    pub proposal_threshold: i128,
    pub timelock_delay: u64,
    pub guardian: String,
    /// 0 = simple, 1 = extended, 2 = quadratic.
    pub vote_type: u32,
    pub proposal_grace_period: u32,
}

/// One `initialize` call on a freshly deployed contract of a governor stack,
/// with the contract's address and the arguments it receives.
#[derive(Debug)]
pub enum InitCall {
    TokenVotes { contract: String, admin: String, token: String },
    Timelock {
        contract: String,
        admin: String,
        governor: String,
        min_delay: u64,
        execution_window: u64,
    },
    Governor {
        contract: String,
        admin: String,
        votes_token: String,
        timelock: String,
        voting_delay: u32,
        voting_period: u32,
        quorum_numerator: u32,
        proposal_threshold: i128,
        guardian: String,
        vote_type: VoteType,
        proposal_grace_period: u32,
    },
}

/// The initialisation of a deployed governor stack, in order: the
/// token-votes contract wraps the requested token, the timelock is bound to
/// the new governor with the requested delay, and the governor is wired to
/// the new token-votes and timelock contracts with the requested settings.
/// The deployer is the admin of all three.
pub open spec fn stack_initialization(
    plan: DeployPlan,
    request: DeployRequest,
    token_votes: String,
    timelock: String,
    governor: String,
) -> Seq<InitCall> {
    seq![
        InitCall::TokenVotes { contract: token_votes, admin: request.deployer, token: request.token },
        InitCall::Timelock {
            contract: timelock,
            admin: request.deployer,
            governor: governor,
            min_delay: request.timelock_delay,
            execution_window: plan.execution_window,
        },
        InitCall::Governor {
            contract: governor,
            admin: request.deployer,
            votes_token: token_votes,
            timelock: timelock,
            voting_delay: request.voting_delay,
            voting_period: request.voting_period,
            quorum_numerator: request.quorum_numerator,
            proposal_threshold: request.proposal_threshold,
            guardian: request.guardian,
            vote_type: plan.vote_type,
            proposal_grace_period: request.proposal_grace_period,
        },
    ]
}

/// The settings check that fails first for a request, if any.
pub open spec fn request_error(request: DeployRequest) -> Option<FactoryError> {
    settings_error(
        request.voting_period,
        request.quorum_numerator,
        request.timelock_delay,
        request.vote_type,
    )
}

/// The first settings check that fails for a requested governor, if any:
/// the voting period must be positive, the quorum numerator at most 100
/// (zero is allowed), the timelock delay positive and the vote type code at
/// most 2.
pub open spec fn settings_error(
    voting_period: u32,
    quorum_numerator: u32,
    timelock_delay: u64,
    vote_type: u32,
) -> Option<FactoryError> {
    if voting_period == 0 {
        Some(FactoryError::InvalidVotingPeriod)
    } else if quorum_numerator > 100 {
        Some(FactoryError::InvalidQuorumNumerator)
    } else if timelock_delay == 0 {
        Some(FactoryError::InvalidTimelockDelay)
    } else if vote_type > 2 {
        Some(FactoryError::InvalidVoteType)
    } else {
        None
    }
}

/// The reserve a deployer must hold to deploy a governor stack.
pub open spec fn deploy_cost() -> int {
    DEPLOYED_CONTRACT_COUNT * MIN_CONTRACT_RESERVE_STROOPS
}

/// Whether a deployer balance (`None` when no native token is configured)
/// is refused for being below the deployment reserve.
pub open spec fn balance_too_low(native_balance: Option<i128>) -> bool {
    native_balance matches Some(b) && b < deploy_cost()
}

pub open spec fn min_int(a: int, b: int) -> int {
    if a <= b {
        a
    } else {
        b
    }
}

/// The state of a governor factory: the contents of its storage slots.
/// Slots that were never written read as `None`, a zero count or an empty list.
pub struct GovernorFactoryContract {
    pub admin: Option<String>,
    pub governor_wasm: Option<WasmHash>,
    pub timelock_wasm: Option<WasmHash>,
    pub token_votes_wasm: Option<WasmHash>,
    pub native_token: Option<String>,
    pub governor_count: u64,
    pub governor_list: Vec<u64>,
    /// The registered entries; the entry of id `i` is at position `i - 1`.
    pub governors: Vec<GovernorEntry>,
}

impl GovernorFactoryContract {
    /// The factory's storage is consistent: the admin and the three code
    /// hashes are either all set or all unset, ids `1..=count` are listed in
    /// order and each has its entry.
    pub open spec fn wf(&self) -> bool {
        &&& (self.admin is Some <==> self.governor_wasm is Some)
        &&& (self.admin is Some <==> self.timelock_wasm is Some)
        &&& (self.admin is Some <==> self.token_votes_wasm is Some)
        &&& self.governor_list@.len() == self.governor_count
        &&& self.governors@.len() == self.governor_count
        &&& forall|i: int| 0 <= i < self.governor_count ==> #[trigger] self.governor_list@[i] == i + 1
        &&& forall|i: int| 0 <= i < self.governor_count ==> #[trigger] self.governors@[i].id == i + 1
    }

    /// The registered governors, by id.
    pub open spec fn registry(&self) -> Map<u64, GovernorEntry> {
        Map::new(
            |id: u64| 1 <= id <= self.governors@.len(),
            |id: u64| self.governors@[id - 1],
        )
    }

    pub open spec fn is_initialized(&self) -> bool {
        self.admin is Some
    }

    /// The entries that `get_all_governors(offset, limit)` returns: those of
    /// the listed ids from position `min(offset, len)` up to
    /// `min(offset + limit, len)`.
    pub open spec fn page(&self, offset: int, limit: int) -> Seq<GovernorEntry> {
        let len = self.governor_list@.len() as int;
        let start = min_int(offset, len);
        let end = min_int(offset + limit, len);
        self.governor_list@.subrange(start, end).map_values(|id: u64| self.registry()[id])
    }

    /// A factory whose storage has never been written.
    pub fn new() -> (s: Self)
        ensures
            s.wf(),
            s.admin is None,
            s.governor_wasm is None,
            s.timelock_wasm is None,
            s.token_votes_wasm is None,
            s.native_token is None,
            s.governor_count == 0,
    {
        GovernorFactoryContract {
            admin: None,
            governor_wasm: None,
            timelock_wasm: None,
            token_votes_wasm: None,
            native_token: None,
            governor_count: 0,
            governor_list: Vec::new(),
            governors: Vec::new(),
        }
    }

    /// Checks that storage read back from the ledger is consistent.
    pub fn is_consistent(&self) -> (b: bool)
        ensures
            b == self.wf(),
    {
        let n = self.governor_count;
        let configured = self.admin.is_some();
        if self.governor_wasm.is_some() != configured || self.timelock_wasm.is_some() != configured
            || self.token_votes_wasm.is_some() != configured {
            return false;
        }
        if self.governor_list.len() as u64 != n || self.governors.len() as u64 != n {
            return false;
        }
        let mut i: usize = 0;
        while i < self.governor_list.len()
            invariant
                self.admin is Some <==> self.governor_wasm is Some,
                self.admin is Some <==> self.timelock_wasm is Some,
                self.admin is Some <==> self.token_votes_wasm is Some,
                self.governor_list@.len() == n,
                self.governors@.len() == n,
                0 <= i <= n,
                forall|j: int| 0 <= j < i ==> #[trigger] self.governor_list@[j] == j + 1,
                forall|j: int| 0 <= j < i ==> #[trigger] self.governors@[j].id == j + 1,
            decreases self.governor_list@.len() - i,
        {
            let expected: u64 = i as u64 + 1;
            if self.governor_list[i] != expected || self.governors[i].id != expected {
                return false;
            }
            i = i + 1;
        }
        true
    }

    /// Initializes the factory with its admin and the code hashes of the
    /// three contracts it deploys. Refused, with nothing changed, when the
    /// factory already has an admin.
    pub fn initialize(
        &mut self,
        admin: String,
        governor_wasm: WasmHash,
        timelock_wasm: WasmHash,
        token_votes_wasm: WasmHash,
    ) -> (r: Result<(), FactoryFault>)
        requires
            old(self).wf(),
        ensures
            final(self).wf(),
            old(self).is_initialized() ==> r == Err::<(), FactoryFault>(FactoryFault::AlreadyInitialized),
            r is Err ==> *final(self) == *old(self),
            !old(self).is_initialized() ==> {
                &&& r is Ok
                &&& final(self).admin == Some(admin)
                &&& final(self).governor_wasm == Some(governor_wasm)
                &&& final(self).timelock_wasm == Some(timelock_wasm)
                &&& final(self).token_votes_wasm == Some(token_votes_wasm)
                &&& final(self).governor_count == 0
                &&& final(self).governor_list@ == Seq::<u64>::empty()
                &&& final(self).governors@ == Seq::<GovernorEntry>::empty()
                &&& final(self).native_token == old(self).native_token
            },
    {
        if self.admin.is_some() {
            return Err(FactoryFault::AlreadyInitialized);
        }
        self.admin = Some(admin);
        self.governor_wasm = Some(governor_wasm);
        self.timelock_wasm = Some(timelock_wasm);
        self.token_votes_wasm = Some(token_votes_wasm);
        self.governor_count = 0;
        self.governor_list = Vec::new();
        self.governors = Vec::new();
        Ok(())
    }

    /// Configures the native asset token whose balance `deploy` checks.
    /// Only the stored admin may do so.
    pub fn set_native_token(&mut self, admin: &String, native_token: String) -> (r: Result<
        (),
        FactoryFault,
    >)
        requires
            old(self).wf(),
        ensures
            final(self).wf(),
            r is Err ==> *final(self) == *old(self),
            old(self).admin is None ==> r == Err::<(), FactoryFault>(FactoryFault::NotInitialized),
            old(self).admin matches Some(a) && a@ != admin@ ==> r == Err::<(), FactoryFault>(
                FactoryFault::NotAdmin,
            ),
            old(self).admin matches Some(a) && a@ == admin@ ==> {
                &&& r is Ok
                &&& final(self).native_token == Some(native_token)
                &&& final(self).admin == old(self).admin
                &&& final(self).governor_wasm == old(self).governor_wasm
                &&& final(self).timelock_wasm == old(self).timelock_wasm
                &&& final(self).token_votes_wasm == old(self).token_votes_wasm
                &&& final(self).governor_count == old(self).governor_count
                &&& final(self).governor_list@ == old(self).governor_list@
                &&& final(self).governors@ == old(self).governors@
            },
    {
        let is_admin = match &self.admin {
            None => {
                return Err(FactoryFault::NotInitialized);
            },
            Some(stored) => *admin == *stored,
        };
        if !is_admin {
            return Err(FactoryFault::NotAdmin);
        }
        self.native_token = Some(native_token);
        Ok(())
    }

    /// The configured native asset token, if any.
    pub fn native_token(&self) -> (r: Option<String>)
        ensures
            r == self.native_token,
    {
        match &self.native_token {
            None => None,
            Some(t) => Some(t.clone()),
        }
    }

    /// The minimum reserve, in stroops, needed to deploy the three contracts
    /// of a governor stack.
    pub fn estimate_deploy_cost() -> (c: i128)
        ensures
            c == deploy_cost(),
            c == 15_000_000,
    {
        DEPLOYED_CONTRACT_COUNT * MIN_CONTRACT_RESERVE_STROOPS
    }

    /// Checks the settings of a governor to be deployed, reporting the first
    /// check that fails.
    pub fn validate_deploy_settings(
        voting_period: u32,
        quorum_numerator: u32,
        timelock_delay: u64,
        vote_type: u32,
    ) -> (r: Result<(), FactoryError>)
        ensures
            r matches Err(e) ==> settings_error(voting_period, quorum_numerator, timelock_delay, vote_type) == Some(e),
            r is Ok ==> settings_error(voting_period, quorum_numerator, timelock_delay, vote_type) is None,
            r is Ok <==> (voting_period > 0 && quorum_numerator <= 100 && timelock_delay > 0
                && vote_type <= 2),
            (r == Err::<(), FactoryError>(FactoryError::InvalidVotingPeriod)) <==> voting_period == 0,
            (r == Err::<(), FactoryError>(FactoryError::InvalidQuorumNumerator)) <==> (voting_period
                > 0 && quorum_numerator > 100),
            (r == Err::<(), FactoryError>(FactoryError::InvalidTimelockDelay)) <==> (voting_period
                > 0 && quorum_numerator <= 100 && timelock_delay == 0),
            (r == Err::<(), FactoryError>(FactoryError::InvalidVoteType)) <==> (voting_period > 0
                && quorum_numerator <= 100 && timelock_delay > 0 && vote_type > 2),
    {
        if voting_period == 0 {
            return Err(FactoryError::InvalidVotingPeriod);
        }
        if quorum_numerator > MAX_QUORUM_NUMERATOR {
            return Err(FactoryError::InvalidQuorumNumerator);
        }
        if timelock_delay == 0 {
            return Err(FactoryError::InvalidTimelockDelay);
        }
        if vote_type > 2 {
            return Err(FactoryError::InvalidVoteType);
        }
        Ok(())
    }

    /// Refuses a deployment whose deployer holds less than the deployment
    /// reserve of the native token. `native_balance` is the deployer's
    /// balance, or `None` when no native token is configured (no check).
    pub fn require_sufficient_deploy_balance(native_balance: Option<i128>) -> (r: Result<
        (),
        FactoryError,
    >)
        ensures
            balance_too_low(native_balance) ==> r == Err::<(), FactoryError>(FactoryError::InsufficientBalance),
            !balance_too_low(native_balance) ==> r is Ok,
            r is Ok <==> (native_balance matches Some(b) ==> b >= 15_000_000),
            r is Err ==> r == Err::<(), FactoryError>(FactoryError::InsufficientBalance),
    {
        match native_balance {
            None => Ok(()),
            Some(balance) => {
                if balance < Self::estimate_deploy_cost() {
                    Err(FactoryError::InsufficientBalance)
                } else {
                    Ok(())
                }
            },
        }
    }

    /// Decides whether the governor stack of `request` may be deployed and,
    /// if so, what to deploy: settings are checked first, then the
    /// deployer's balance of the configured native token (`native_balance`,
    /// which is that balance exactly when a native token is configured),
    /// then the stored code hashes. The new stack gets the next id, and each
    /// contract the salt of that id and its suffix.
    pub fn plan_deploy(&self, request: &DeployRequest, native_balance: Option<i128>) -> (r: Result<
        DeployPlan,
        FactoryFault,
    >)
        requires
            self.wf(),
            self.governor_count < u64::MAX,
            native_balance is Some <==> self.native_token is Some,
        ensures
            request_error(*request) matches Some(e) ==> r == Err::<DeployPlan, FactoryFault>(
                FactoryFault::Rejected(e),
            ),
            request_error(*request) is None && balance_too_low(native_balance) ==> r == Err::<
                DeployPlan,
                FactoryFault,
            >(FactoryFault::Rejected(FactoryError::InsufficientBalance)),
            request_error(*request) is None && !balance_too_low(native_balance)
                && self.governor_wasm is None ==> r == Err::<DeployPlan, FactoryFault>(
                FactoryFault::GovernorWasmNotSet,
            ),
            request_error(*request) is None && !balance_too_low(native_balance)
                && self.governor_wasm is Some && self.timelock_wasm is None ==> r == Err::<
                DeployPlan,
                FactoryFault,
            >(FactoryFault::TimelockWasmNotSet),
            request_error(*request) is None && !balance_too_low(native_balance)
                && self.governor_wasm is Some && self.timelock_wasm is Some
                && self.token_votes_wasm is None ==> r == Err::<DeployPlan, FactoryFault>(
                FactoryFault::TokenVotesWasmNotSet,
            ),
            r is Ok <==> (request_error(*request) is None && !balance_too_low(native_balance)
                && self.is_initialized()),
            r matches Ok(plan) ==> {
                &&& plan.id == self.governor_count + 1
                &&& self.governor_wasm == Some(plan.governor_wasm)
                &&& self.timelock_wasm == Some(plan.timelock_wasm)
                &&& self.token_votes_wasm == Some(plan.token_votes_wasm)
                &&& plan.token_votes_salt@ == spec_deploy_salt(plan.id, TOKEN_VOTES_SALT_SUFFIX)
                &&& plan.timelock_salt@ == spec_deploy_salt(plan.id, TIMELOCK_SALT_SUFFIX)
                &&& plan.governor_salt@ == spec_deploy_salt(plan.id, GOVERNOR_SALT_SUFFIX)
                &&& plan.vote_type == vote_type_of(request.vote_type)
                &&& plan.execution_window == DEFAULT_EXECUTION_WINDOW
            },
    {
        match Self::validate_deploy_settings(
            request.voting_period,
            request.quorum_numerator,
            request.timelock_delay,
            request.vote_type,
        ) {
            Err(e) => {
                return Err(FactoryFault::Rejected(e));
            },
            Ok(()) => {},
        }
        match Self::require_sufficient_deploy_balance(native_balance) {
            Err(e) => {
                return Err(FactoryFault::Rejected(e));
            },
            Ok(()) => {},
        }
        let id = self.governor_count + 1;
        let governor_wasm = match self.governor_wasm {
            None => {
                return Err(FactoryFault::GovernorWasmNotSet);
            },
            Some(w) => w,
        };
        let timelock_wasm = match self.timelock_wasm {
            None => {
                return Err(FactoryFault::TimelockWasmNotSet);
            },
            Some(w) => w,
        };
        let token_votes_wasm = match self.token_votes_wasm {
            None => {
                return Err(FactoryFault::TokenVotesWasmNotSet);
            },
            Some(w) => w,
        };
        Ok(
            DeployPlan {
                id,
                token_votes_wasm,
                token_votes_salt: deploy_salt(id, TOKEN_VOTES_SALT_SUFFIX),
                timelock_wasm,
                timelock_salt: deploy_salt(id, TIMELOCK_SALT_SUFFIX),
                governor_wasm,
                governor_salt: deploy_salt(id, GOVERNOR_SALT_SUFFIX),
                vote_type: VoteType::from_code(request.vote_type),
                execution_window: DEFAULT_EXECUTION_WINDOW,
            },
        )
    }

    /// The `initialize` calls that wire up a governor stack deployed for
    /// `plan` and `request` at the addresses `token_votes`, `timelock` and
    /// `governor`, in the order they are made.
    pub fn initialization_calls(
        plan: &DeployPlan,
        request: &DeployRequest,
        token_votes: &String,
        timelock: &String,
        governor: &String,
    ) -> (calls: Vec<InitCall>)
        ensures
            calls@ == stack_initialization(*plan, *request, *token_votes, *timelock, *governor),
            calls@.len() == 3,
            calls@[0] matches InitCall::TokenVotes { contract: c, admin: a, token: t } && c
                == *token_votes && a == request.deployer && t == request.token,
            calls@[1] matches InitCall::Timelock {
                contract: c,
                admin: a,
                governor: g,
                min_delay: d,
                execution_window: w,
            } && c == *timelock && a == request.deployer && g == *governor && d
                == request.timelock_delay && w == plan.execution_window,
            calls@[2] matches InitCall::Governor {
                contract: c,
                admin: a,
                votes_token: vt,
                timelock: tl,
                voting_delay: vd,
                voting_period: vp,
                quorum_numerator: q,
                proposal_threshold: pt,
                guardian: gd,
                vote_type: v,
                proposal_grace_period: gp,
            } && c == *governor && a == request.deployer && vt == *token_votes && tl == *timelock
                && vd == request.voting_delay && vp == request.voting_period && q
                == request.quorum_numerator && pt == request.proposal_threshold && gd
                == request.guardian && v == plan.vote_type && gp == request.proposal_grace_period,
    {
        let mut calls: Vec<InitCall> = Vec::new();
        calls.push(
            InitCall::TokenVotes {
                contract: token_votes.clone(),
                admin: request.deployer.clone(),
                token: request.token.clone(),
            },
        );
        calls.push(
            InitCall::Timelock {
                contract: timelock.clone(),
                admin: request.deployer.clone(),
                governor: governor.clone(),
                min_delay: request.timelock_delay,
                execution_window: plan.execution_window,
            },
        );
        calls.push(
            InitCall::Governor {
                contract: governor.clone(),
                admin: request.deployer.clone(),
                votes_token: token_votes.clone(),
                timelock: timelock.clone(),
                voting_delay: request.voting_delay,
                voting_period: request.voting_period,
                quorum_numerator: request.quorum_numerator,
                proposal_threshold: request.proposal_threshold,
                guardian: request.guardian.clone(),
                vote_type: plan.vote_type,
                proposal_grace_period: request.proposal_grace_period,
            },
        );
        assert(calls@ =~= stack_initialization(*plan, *request, *token_votes, *timelock, *governor));
        calls
    }

    /// Registers the governor stack of `plan` once its contracts are
    /// deployed and initialised: stores its entry under the plan's id, makes
    /// that id the governor count, appends it to the list, and returns the
    /// event announcing the deployment at ledger time `timestamp`.
    pub fn commit_deploy(
        &mut self,
        plan: &DeployPlan,
        deployer: String,
        governor: String,
        timelock: String,
        token_votes: String,
        timestamp: u64,
    ) -> (event: GovernorDeployedEvent)
        requires
            old(self).wf(),
            plan.id == old(self).governor_count + 1,
        ensures
            final(self).wf(),
            final(self).governor_count == plan.id,
            final(self).governor_list@ == old(self).governor_list@.push(plan.id),
            final(self).governors@ == old(self).governors@.push(
                GovernorEntry { id: plan.id, governor, timelock, token: token_votes, deployer },
            ),
            final(self).registry() == old(self).registry().insert(
                plan.id,
                GovernorEntry { id: plan.id, governor, timelock, token: token_votes, deployer },
            ),
            final(self).admin == old(self).admin,
            final(self).governor_wasm == old(self).governor_wasm,
            final(self).timelock_wasm == old(self).timelock_wasm,
            final(self).token_votes_wasm == old(self).token_votes_wasm,
            final(self).native_token == old(self).native_token,
            event == (GovernorDeployedEvent {
                id: plan.id,
                governor,
                timelock,
                token_votes,
                deployer,
                timestamp,
            }),
    {
        let id = plan.id;
        let entry = GovernorEntry {
            id,
            governor: governor.clone(),
            timelock: timelock.clone(),
            token: token_votes.clone(),
            deployer: deployer.clone(),
        };
        let ghost old_registry = self.registry();
        self.governors.push(entry);
        self.governor_count = id;
        self.governor_list.push(id);
        assert(self.registry() =~= old_registry.insert(id, self.governors@[id - 1]));
        GovernorDeployedEvent { id, governor, timelock, token_votes, deployer, timestamp }
    }

    /// The governor registered under `id`.
    pub fn get_governor(&self, id: u64) -> (r: Result<GovernorEntry, FactoryFault>)
        requires
            self.wf(),
        ensures
            self.registry().contains_key(id) ==> r == Ok::<GovernorEntry, FactoryFault>(
                self.registry()[id],
            ),
            !self.registry().contains_key(id) ==> r == Err::<GovernorEntry, FactoryFault>(
                FactoryFault::GovernorNotFound,
            ),
    {
        if id == 0 || id > self.governor_count {
            return Err(FactoryFault::GovernorNotFound);
        }
        let n = self.governors.len();
        assert(id - 1 < n);
        let idx = (id - 1) as usize;
        assert(self.registry()[id] == self.governors@[idx as int]);
        Ok(self.governors[idx].clone())
    }

    /// A page of the registered governors: the entries of the listed ids
    /// from position `min(offset, len)` up to `min(offset + limit, len)`.
    pub fn get_all_governors(&self, offset: u32, limit: u32) -> (r: Vec<GovernorEntry>)
        requires
            self.wf(),
            offset + limit <= u32::MAX,
        ensures
            r@ == self.page(offset as int, limit as int),
            r@ == self.governors@.subrange(
                min_int(offset as int, self.governors@.len() as int),
                min_int(offset + limit, self.governors@.len() as int),
            ),
            r@.len() == (if offset >= self.governor_count {
                0
            } else if offset + limit >= self.governor_count {
                self.governor_count - offset
            } else {
                limit as int
            }),
            forall|i: int| 0 <= i < r@.len() ==> #[trigger] r@[i].id == offset + i + 1,
    {
        let len = self.governor_list.len();
        let off = offset as usize;
        let stop = (offset + limit) as usize;
        let start = if off < len {
            off
        } else {
            len
        };
        let end = if stop < len {
            stop
        } else {
            len
        };
        let mut entries: Vec<GovernorEntry> = Vec::new();
        let mut i = start;
        while i < end
            invariant
                self.wf(),
                len == self.governor_list@.len(),
                start <= i <= end,
                end <= len,
                start == min_int(offset as int, len as int),
                end == min_int(offset + limit, len as int),
                entries@ == self.governors@.subrange(start as int, i as int),
            decreases end - i,
        {
            let id = self.governor_list[i];
            match self.get_governor(id) {
                Ok(entry) => {
                    entries.push(entry);
                },
                Err(_) => {
                    proof {
                        assert(false);
                    }
                },
            }
            assert(entries@ =~= self.governors@.subrange(start as int, i + 1));
            i = i + 1;
        }
        proof {
            assert(self.page(offset as int, limit as int) =~= self.governors@.subrange(
                start as int,
                end as int,
            ));
        }
        entries
    }

    /// The number of deployed governors.
    pub fn governor_count(&self) -> (n: u64)
        ensures
            n == self.governor_count,
    {
        self.governor_count
    }
}

/// In a consistent factory the registered ids are exactly `1..=count`, and
/// each entry is registered under its own id.
pub proof fn law_registry_holds_ids_one_to_count(s: GovernorFactoryContract, id: u64)
    requires
        s.wf(),
    ensures
        s.registry().contains_key(id) <==> 1 <= id <= s.governor_count,
        s.registry().contains_key(id) ==> s.registry()[id].id == id,
{
    if 1 <= id <= s.governor_count {
        assert(s.governors@[id - 1].id == id);
    }
}

/// The id a new deployment receives is never one already registered, so a
/// deployment never overwrites an earlier governor, and after it the new
/// entry is found under its id while every earlier entry is unchanged.
pub proof fn law_deploy_registers_fresh_id(
    s: GovernorFactoryContract,
    entry: GovernorEntry,
    other: u64,
)
    requires
        s.wf(),
        entry.id == s.governor_count + 1,
    ensures
        !s.registry().contains_key(entry.id),
        s.registry().insert(entry.id, entry)[entry.id] == entry,
        s.registry().contains_key(other) ==> s.registry().insert(entry.id, entry)[other]
            == s.registry()[other],
{
}

/// Consecutive pages concatenate: the page of `a` entries at `offset`
/// followed by the page of `b` entries at `offset + a` is the page of
/// `a + b` entries at `offset`.
pub proof fn law_pages_concatenate(s: GovernorFactoryContract, offset: int, a: int, b: int)
    requires
        s.wf(),
        offset >= 0,
        a >= 0,
        b >= 0,
    ensures
        s.page(offset, a) + s.page(offset + a, b) == s.page(offset, a + b),
{
    let l = s.governor_list@;
    let len = l.len() as int;
    let s0 = min_int(offset, len);
    let s1 = min_int(offset + a, len);
    let s2 = min_int(offset + a + b, len);
    assert(l.subrange(s0, s1) + l.subrange(s1, s2) =~= l.subrange(s0, s2));
    assert(s.page(offset, a) + s.page(offset + a, b) =~= s.page(offset, a + b));
}

/// Paging from the start over the whole list yields every registered
/// governor, in the order of their ids.
pub proof fn law_full_page_lists_every_governor(s: GovernorFactoryContract)
    requires
        s.wf(),
    ensures
        s.page(0, s.governor_count as int) == s.governors@,
        forall|i: int|
            0 <= i < s.governor_count ==> #[trigger] s.page(0, s.governor_count as int)[i]
                == s.registry()[(i + 1) as u64],
{
    let l = s.governor_list@;
    assert(l.subrange(0, l.len() as int) =~= l);
    assert forall|i: int| 0 <= i < s.governor_count implies #[trigger] s.page(
        0,
        s.governor_count as int,
    )[i] == s.governors@[i] by {
        assert(l[i] == i + 1);
    }
    assert(s.page(0, s.governor_count as int) =~= s.governors@);
}

/// Each deployment adds exactly one governor to the full listing: after a
/// registration the listing from offset 0 is the previous listing followed
/// by the new entry, whose id is one more than the previous count, and every
/// earlier entry is unchanged.
pub proof fn law_deploy_extends_listing(
    pre: GovernorFactoryContract,
    post: GovernorFactoryContract,
    entry: GovernorEntry,
)
    requires
        pre.wf(),
        pre.governor_count < u32::MAX,
        entry.id == pre.governor_count + 1,
        post.governor_count == entry.id,
        post.governor_list@ == pre.governor_list@.push(entry.id),
        post.governors@ == pre.governors@.push(entry),
        post.admin == pre.admin,
        post.governor_wasm == pre.governor_wasm,
        post.timelock_wasm == pre.timelock_wasm,
        post.token_votes_wasm == pre.token_votes_wasm,
    ensures
        post.wf(),
        post.page(0, u32::MAX as int) == pre.page(0, u32::MAX as int).push(entry),
        forall|id: u64|
            #[trigger] pre.registry().contains_key(id) ==> post.registry().contains_key(id)
                && post.registry()[id] == pre.registry()[id],
{
    assert(post.wf()) by {
        assert forall|i: int| 0 <= i < post.governor_count implies #[trigger] post.governor_list@[i] == i + 1 by {
            if i < pre.governor_count {
                assert(post.governor_list@[i] == pre.governor_list@[i]);
            }
        }
        assert forall|i: int| 0 <= i < post.governor_count implies #[trigger] post.governors@[i].id == i + 1 by {
            if i < pre.governor_count {
                assert(post.governors@[i] == pre.governors@[i]);
            }
        }
    }
    law_full_page_lists_every_governor(pre);
    law_full_page_lists_every_governor(post);
    let m = u32::MAX as int;
    assert(pre.page(0, m) =~= pre.page(0, pre.governor_count as int)) by {
        assert(pre.governor_list@.subrange(0, pre.governor_count as int) =~= pre.governor_list@);
    }
    assert(post.page(0, m) =~= post.page(0, post.governor_count as int)) by {
        assert(post.governor_list@.subrange(0, post.governor_count as int) =~= post.governor_list@);
    }
    assert(post.governors@ =~= pre.governors@.push(entry));
}

/// The governor count equals the length of the full listing, and the last
/// listed governor, the one with the largest id, has the count as its id.
pub proof fn law_count_matches_listing(s: GovernorFactoryContract)
    requires
        s.wf(),
        s.governor_count <= u32::MAX,
    ensures
        s.page(0, u32::MAX as int).len() == s.governor_count,
        forall|i: int|
            0 <= i < s.governor_count ==> #[trigger] s.page(0, u32::MAX as int)[i].id == i + 1,
{
    law_full_page_lists_every_governor(s);
    assert(s.governor_list@.subrange(0, s.governor_count as int) =~= s.governor_list@);
    assert(s.page(0, u32::MAX as int) =~= s.page(0, s.governor_count as int));
}

/// A deployer is refused for its balance exactly when a native token is
/// configured and the balance is below the reserve of three contracts at
/// 5,000,000 stroops each; every balance at or above it is accepted, so
/// acceptance is monotone in the balance.
pub proof fn law_balance_threshold(b: i128, richer: i128)
    ensures
        !balance_too_low(None),
        balance_too_low(Some(b)) <==> b < 3 * 5_000_000,
        !balance_too_low(Some(b)) && b <= richer ==> !balance_too_low(Some(richer)),
{
}

/// The settings of a governor are accepted exactly when the voting period
/// and the timelock delay are positive, the quorum numerator is at most 100
/// and the vote type code at most 2; a refusal names the first of these, in
/// that order, that fails.
pub proof fn law_settings_acceptance(
    voting_period: u32,
    quorum_numerator: u32,
    timelock_delay: u64,
    vote_type: u32,
)
    ensures
        settings_error(voting_period, quorum_numerator, timelock_delay, vote_type) is None
            <==> (voting_period > 0 && quorum_numerator <= 100 && timelock_delay > 0 && vote_type
            <= 2),
        (settings_error(voting_period, quorum_numerator, timelock_delay, vote_type) == Some(
            FactoryError::InvalidVotingPeriod,
        )) <==> voting_period == 0,
        (settings_error(voting_period, quorum_numerator, timelock_delay, vote_type) == Some(
            FactoryError::InvalidQuorumNumerator,
        )) <==> (voting_period > 0 && quorum_numerator > 100),
        (settings_error(voting_period, quorum_numerator, timelock_delay, vote_type) == Some(
            FactoryError::InvalidTimelockDelay,
        )) <==> (voting_period > 0 && quorum_numerator <= 100 && timelock_delay == 0),
        (settings_error(voting_period, quorum_numerator, timelock_delay, vote_type) == Some(
            FactoryError::InvalidVoteType,
        )) <==> (voting_period > 0 && quorum_numerator <= 100 && timelock_delay > 0 && vote_type
            > 2),
{
}

/// Vote type codes: 0 selects simple voting, 2 quadratic voting, and every
/// other code extended voting.
pub proof fn law_vote_type_codes(code: u32)
    ensures
        (vote_type_of(code) == VoteType::Simple) <==> code == 0,
        (vote_type_of(code) == VoteType::Quadratic) <==> code == 2,
        (vote_type_of(code) == VoteType::Extended) <==> (code != 0 && code != 2),
{
}

/// The governor of a new stack is initialised with the vote type of its
/// plan, which is the one the request's code selects: a quadratic request
/// gives a quadratic governor. The governor is wired to the stack's own
/// token-votes and timelock contracts, and the timelock to the governor.
pub proof fn law_governor_initialised_with_requested_vote_type(
    plan: DeployPlan,
    request: DeployRequest,
    token_votes: String,
    timelock: String,
    governor: String,
)
    requires
        plan.vote_type == vote_type_of(request.vote_type),
    ensures
        stack_initialization(plan, request, token_votes, timelock, governor).len() == 3,
        stack_initialization(plan, request, token_votes, timelock, governor)[2] matches InitCall::Governor {
            contract: c,
            votes_token: vt,
            timelock: tl,
            vote_type: v,
            ..
        } && c == governor && vt == token_votes && tl == timelock && v == plan.vote_type
            && (request.vote_type == 2 ==> v == VoteType::Quadratic) && (request.vote_type == 0
            ==> v == VoteType::Simple),
        stack_initialization(plan, request, token_votes, timelock, governor)[1] matches InitCall::Timelock {
            contract: c,
            governor: g,
            ..
        } && c == timelock && g == governor,
{
}

/// `min_int` is the minimum of its arguments.
pub proof fn law_min_int_is_minimum(a: int, b: int)
    ensures
        min_int(a, b) <= a,
        min_int(a, b) <= b,
        min_int(a, b) == a || min_int(a, b) == b,
{
}

/// A page holds the governors of ids `offset + 1, offset + 2, ...`: none
/// when the offset is at or past the count, the rest of the list when the
/// page reaches past its end, and `limit` of them otherwise. In particular a
/// page at an offset below the count with a positive limit starts with id
/// `offset + 1`.
pub proof fn law_page_shape(s: GovernorFactoryContract, offset: int, limit: int)
    requires
        s.wf(),
        offset >= 0,
        limit >= 0,
    ensures
        s.page(offset, limit).len() == (if offset >= s.governor_count {
            0
        } else if offset + limit >= s.governor_count {
            s.governor_count - offset
        } else {
            limit
        }),
        forall|i: int|
            0 <= i < s.page(offset, limit).len() ==> #[trigger] s.page(offset, limit)[i].id
                == offset + i + 1,
        offset < s.governor_count && limit >= 1 ==> s.page(offset, limit).len() >= 1 && s.page(
            offset,
            limit,
        )[0].id == offset + 1,
{
    let len = s.governor_count as int;
    let start = min_int(offset, len);
    let end = min_int(offset + limit, len);
    assert forall|i: int| 0 <= i < s.page(offset, limit).len() implies #[trigger] s.page(
        offset,
        limit,
    )[i].id == offset + i + 1 by {
        let id = s.governor_list@[start + i];
        assert(id == start + i + 1);
        assert(s.governors@[start + i].id == start + i + 1);
    }
}

} // verus!
