use crate::errors::VestingError;
use crate::types::{Vesting, VestingState, VestingTerms, VestingTimeline, THIRTY_DAYS};
use vstd::prelude::*;

verus! {

/// The parameters needed to initialize a grant: the timeline offsets, the
/// total amount granted, what was already issued, and the revocation flag.
pub struct VestingInitParams {
    /// The vesting UNIX start time in seconds.
    pub start_unix: u64,
    /// The duration of the cliff in seconds.
    pub cliff_seconds: u64,
    /// The duration of the overall grant (must be >= cliff).
    pub duration_seconds: u64,
    /// The duration of a slice period for the vesting in seconds.
    pub seconds_per_slice: u64,
    /// The total number of tokens issued for the duration of the grant.
    pub grant_token_amount: u64,
    /// The number of tokens already issued to the user (<= grant_token_amount).
    pub already_issued_token_amount: u64,
    /// Marks if the grant was revoked by an admin.
    pub revoked: bool,
}

/// The timeline-validation rules: the cliff fits inside the grant, and the
/// slice is positive, at most thirty days, and no longer than the grant.
pub open spec fn timeline_params_ok(params: VestingInitParams) -> bool {
    &&& params.cliff_seconds <= params.duration_seconds
    &&& 0 < params.seconds_per_slice <= THIRTY_DAYS
    &&& params.seconds_per_slice <= params.duration_seconds
}

/// The rule that state validation enforces: no more may have been issued
/// than the total grant.
pub open spec fn state_params_ok(params: VestingInitParams) -> bool {
    params.already_issued_token_amount <= params.grant_token_amount
}

/// The message reported for invalid timeline parameters; the first broken
/// rule, in validation order, wins.
pub open spec fn timeline_config_error_message(params: VestingInitParams) -> Seq<char> {
    if params.duration_seconds < params.cliff_seconds {
        "Grant duration is less than the cliff"@
    } else if params.seconds_per_slice == 0 || params.seconds_per_slice > THIRTY_DAYS {
        "Slice must be > 0 and <= 30 days"@
    } else {
        "Slice must < than grant length"@
    }
}

/// Validated construction from the shared parameter struct.
pub trait CanInitialize where Self: Sized {
    fn from_init_params(params: &VestingInitParams) -> Result<Self, VestingError>;
}

impl CanInitialize for VestingTimeline {
    fn from_init_params(params: &VestingInitParams) -> (r: Result<Self, VestingError>)
        ensures
            r is Ok <==> timeline_params_ok(*params),
            timeline_params_ok(*params) ==> (r matches Ok(tl) && {
                &&& tl.start_unix == params.start_unix
                &&& tl.cliff_seconds == params.cliff_seconds
                &&& tl.duration_seconds == params.duration_seconds
                &&& tl.seconds_per_slice == params.seconds_per_slice
                &&& tl.wf()
            }),
            !timeline_params_ok(*params) ==> (r matches Err(
                VestingError::ConfigurationError(m),
            ) && m@ == timeline_config_error_message(*params)),
    {
        if params.duration_seconds < params.cliff_seconds {
            return Err(VestingError::ConfigurationError("Grant duration is less than the cliff"));
        }
        if params.seconds_per_slice == 0 || params.seconds_per_slice > THIRTY_DAYS {
            return Err(VestingError::ConfigurationError("Slice must be > 0 and <= 30 days"));
        }
        if params.seconds_per_slice > params.duration_seconds {
            return Err(VestingError::ConfigurationError("Slice must < than grant length"));
        }
        Ok(
            VestingTimeline {
                cliff_seconds: params.cliff_seconds,
                start_unix: params.start_unix,
                duration_seconds: params.duration_seconds,
                seconds_per_slice: params.seconds_per_slice,
            },
        )
    }
}

impl CanInitialize for VestingTerms {
    fn from_init_params(params: &VestingInitParams) -> (r: Result<Self, VestingError>)
        ensures
            r is Ok <==> timeline_params_ok(*params),
            timeline_params_ok(*params) ==> (r matches Ok(terms) && {
                &&& terms.timeline.start_unix == params.start_unix
                &&& terms.timeline.cliff_seconds == params.cliff_seconds
                &&& terms.timeline.duration_seconds == params.duration_seconds
                &&& terms.timeline.seconds_per_slice == params.seconds_per_slice
                &&& terms.timeline.wf()
                &&& terms.amount == params.grant_token_amount
            }),
            !timeline_params_ok(*params) ==> (r matches Err(
                VestingError::ConfigurationError(m),
            ) && m@ == timeline_config_error_message(*params)),
    {
        let timeline = match VestingTimeline::from_init_params(params) {
            Ok(timeline) => timeline,
            Err(e) => {
                return Err(e);
            },
        };
        Ok(VestingTerms { timeline, amount: params.grant_token_amount })
    }
}

impl CanInitialize for VestingState {
    fn from_init_params(params: &VestingInitParams) -> (r: Result<Self, VestingError>)
        ensures
            r is Ok <==> state_params_ok(*params),
            state_params_ok(*params) ==> (r matches Ok(state) && {
                &&& state.revoked == params.revoked
                &&& state.amount_already_issued == params.already_issued_token_amount
            }),
            !state_params_ok(*params) ==> (r matches Err(VestingError::ConfigurationError(m))
                && m@ == "Tokens issued are greater than the total grant"@),
    {
        if params.already_issued_token_amount > params.grant_token_amount {
            return Err(
                VestingError::ConfigurationError("Tokens issued are greater than the total grant"),
            );
        }
        Ok(
            VestingState {
                revoked: params.revoked,
                amount_already_issued: params.already_issued_token_amount,
            },
        )
    }
}

impl CanInitialize for Vesting {
    fn from_init_params(params: &VestingInitParams) -> (r: Result<Self, VestingError>)
        ensures
            r is Ok <==> state_params_ok(*params) && timeline_params_ok(*params),
            state_params_ok(*params) && timeline_params_ok(*params) ==> (r matches Ok(v) && {
                &&& v.terms.timeline.start_unix == params.start_unix
                &&& v.terms.timeline.cliff_seconds == params.cliff_seconds
                &&& v.terms.timeline.duration_seconds == params.duration_seconds
                &&& v.terms.timeline.seconds_per_slice == params.seconds_per_slice
                &&& v.terms.amount == params.grant_token_amount
                &&& v.state.revoked == params.revoked
                &&& v.state.amount_already_issued == params.already_issued_token_amount
                &&& v.wf()
            }),
            !state_params_ok(*params) ==> (r matches Err(VestingError::ConfigurationError(m))
                && m@ == "Tokens issued are greater than the total grant"@),
            state_params_ok(*params) && !timeline_params_ok(*params) ==> (r matches Err(
                VestingError::ConfigurationError(m),
            ) && m@ == timeline_config_error_message(*params)),
    {
        let state = match VestingState::from_init_params(params) {
            Ok(state) => state,
            Err(e) => {
                return Err(e);
            },
        };
        let terms = match VestingTerms::from_init_params(params) {
            Ok(terms) => terms,
            Err(e) => {
                return Err(e);
            },
        };
        Ok(Vesting { state, terms })
    }
}

} // verus!
