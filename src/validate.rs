use vstd::prelude::*;
use crate::error::{Error, Violation};

verus! {

/// The outcome of the checks made before a fit starts, given the result of
/// the configuration's field check and the lengths of the two sample
/// sequences. The configuration is checked first, and only its first
/// violation is reported; the lengths are compared after.
pub open spec fn precheck(
    violations: Result<(), Vec<Violation>>,
    x_data_len: usize,
    y_data_len: usize,
) -> Result<(), Error> {
    match violations {
        Err(v) if v@.len() > 0 => Err(Error::ConfigCheckFailed(v@[0])),
        _ => if x_data_len != y_data_len {
            Err(Error::UnmatchedLength { x_data_len, y_data_len })
        } else {
            Ok(())
        },
    }
}

/// Checks the inputs of a fit before any optimization work: the result of
/// the configuration's field check, then the lengths of the x and y samples.
pub fn check_inputs(
    violations: Result<(), Vec<Violation>>,
    x_data_len: usize,
    y_data_len: usize,
) -> (r: Result<(), Error>)
    ensures
        r == precheck(violations, x_data_len, y_data_len),
        r is Ok <==> ((violations is Ok || violations->Err_0@.len() == 0)
            && x_data_len == y_data_len),
{
    match violations {
        Err(mut v) => {
            if v.len() > 0 {
                let e = v.remove(0);
                return Err(Error::ConfigCheckFailed(e));
            }
        },
        Ok(()) => {},
    }
    if x_data_len != y_data_len {
        Err(Error::UnmatchedLength { x_data_len, y_data_len })
    } else {
        Ok(())
    }
}

/// Sample sequences of different lengths are always reported as such,
/// with both lengths, once the configuration passes its check.
pub proof fn lemma_mismatch_reported(
    violations: Result<(), Vec<Violation>>,
    x_data_len: usize,
    y_data_len: usize,
)
    requires
        violations is Ok || violations->Err_0@.len() == 0,
        x_data_len != y_data_len,
    ensures
        precheck(violations, x_data_len, y_data_len) == Err::<(), Error>(
            Error::UnmatchedLength { x_data_len, y_data_len },
        ),
{
}

/// A configuration that fails its check is reported, with its first
/// violation, whatever the lengths of the sample sequences.
pub proof fn lemma_config_checked_first(
    v: Vec<Violation>,
    x_data_len: usize,
    y_data_len: usize,
)
    requires
        v@.len() > 0,
    ensures
        precheck(Err(v), x_data_len, y_data_len) == Err::<(), Error>(
            Error::ConfigCheckFailed(v@[0]),
        ),
{
}

} // verus!
