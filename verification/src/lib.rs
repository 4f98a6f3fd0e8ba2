mod errors;
mod traits;
mod types;

pub use errors::VestingError;
pub use traits::{
    state_params_ok, timeline_config_error_message, timeline_params_ok, CanInitialize,
    VestingInitParams,
};
pub use types::{
    lemma_releasable_monotone, lemma_vested_amount_bounds, GetReleasableAmountParams,
    UnixVestingTimeline, Vesting, VestingState, VestingTerms, VestingTimeline, THIRTY_DAYS,
};
