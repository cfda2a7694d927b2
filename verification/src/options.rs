//! The options of an outgoing request.
use vstd::prelude::*;

use crate::types::RequestOptions;

verus! {

/// Which timeout of an outgoing request does not fit in 64 bits of nanoseconds.
#[derive(Clone, Copy, Debug, PartialEq, Eq, Structural)]
pub enum TimeoutOverflow {
    ConnectTimeout,
    FirstByteTimeout,
    BetweenBytesTimeout,
}

/// Builds the options of an outgoing request from its three timeouts, in nanoseconds.
/// Each must fit in a `u64`; the first that does not, in the order of the parameters, is
/// the error.
pub fn try_request_options_from_timeouts(
    connect_timeout: u128,
    first_byte_timeout: u128,
    between_bytes_timeout: u128,
) -> (r: Result<RequestOptions, TimeoutOverflow>)
    ensures
        r is Ok <==> connect_timeout <= u64::MAX && first_byte_timeout <= u64::MAX
            && between_bytes_timeout <= u64::MAX,
        r matches Ok(o) ==> o.connect_timeout == Some(connect_timeout as u64)
            && o.first_byte_timeout == Some(first_byte_timeout as u64)
            && o.between_bytes_timeout == Some(between_bytes_timeout as u64),
        r matches Err(e) ==> e == if connect_timeout > u64::MAX {
            TimeoutOverflow::ConnectTimeout
        } else if first_byte_timeout > u64::MAX {
            TimeoutOverflow::FirstByteTimeout
        } else {
            TimeoutOverflow::BetweenBytesTimeout
        },
{
    if connect_timeout > u64::MAX as u128 {
        return Err(TimeoutOverflow::ConnectTimeout);
    }
    if first_byte_timeout > u64::MAX as u128 {
        return Err(TimeoutOverflow::FirstByteTimeout);
    }
    if between_bytes_timeout > u64::MAX as u128 {
        return Err(TimeoutOverflow::BetweenBytesTimeout);
    }
    Ok(
        RequestOptions {
            connect_timeout: Some(connect_timeout as u64),
            first_byte_timeout: Some(first_byte_timeout as u64),
            between_bytes_timeout: Some(between_bytes_timeout as u64),
        },
    )
}

} // verus!
