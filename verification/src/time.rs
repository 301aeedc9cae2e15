use vstd::prelude::*;

verus! {

#[verifier::external_type_specification]
#[verifier::external_body]
pub struct ExSystemTime(std::time::SystemTime);

/// The machine's clock now, from `SystemTime::now()`. Nothing is stated of it.
#[verifier::external_body]
fn system_now() -> std::time::SystemTime {
    std::time::SystemTime::now()
}

/// Whole seconds from the Unix epoch to `t`, from
/// `t.duration_since(UNIX_EPOCH)`; `None` when `t` is before the epoch.
/// Nothing more is stated: the value rests on the clock reading.
#[verifier::external_body]
fn seconds_since_epoch(t: &std::time::SystemTime) -> Option<u64> {
    match t.duration_since(std::time::SystemTime::UNIX_EPOCH) {
        Ok(d) => Some(d.as_secs()),
        Err(_) => None,
    }
}

/// The current Unix time in whole seconds; `None` when the clock reads a time
/// before the Unix epoch (the program stops there).
pub fn current_time() -> Option<u64> {
    seconds_since_epoch(&system_now())
}

} // verus!
