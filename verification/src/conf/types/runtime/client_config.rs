//! The resolved form of the client settings.

use vstd::prelude::*;

use crate::conf::constraints::{narrow_issues, narrow_to_usize};
use crate::conf::diagnostic::{report_issues, IssueView};
use crate::conf::types::specification::client_spec::{client_spec_valid, ClientSpec};

verus! {

/// The client settings a connection runs on.
#[derive(Debug, Clone, Copy, PartialEq, Eq, Structural)]
pub struct ClientConfig {
    /// Bytes each connection's read buffer holds.
    pub read_buffer_bytes: usize,
    /// Messages each pub/sub channel holds.
    pub pub_sub_channel_capacity: usize,
}

/// The runtime settings the client spec lowers to, when both values fit a
/// `usize`.
pub open spec fn lowered_client(spec: ClientSpec) -> Option<ClientConfig> {
    let buffer = spec.read_buffer_bytes.value;
    let capacity = spec.pub_sub_channel_capacity.value;
    if 0 <= buffer <= usize::MAX && 0 <= capacity <= usize::MAX {
        Some(
            ClientConfig {
                read_buffer_bytes: buffer as usize,
                pub_sub_channel_capacity: capacity as usize,
            },
        )
    } else {
        None
    }
}

/// The issues lowering the client spec records: it stops at the first value
/// that does not fit.
pub open spec fn client_lowering_issues(spec: ClientSpec) -> Seq<IssueView> {
    let buffer = spec.read_buffer_bytes.value;
    let capacity = spec.pub_sub_channel_capacity.value;
    if 0 <= buffer <= usize::MAX {
        narrow_issues(0 <= capacity <= usize::MAX, capacity as int, "usize"@)
    } else {
        narrow_issues(false, buffer as int, "usize"@)
    }
}

impl ClientConfig {
    /// Lowers the client spec, narrowing each value to a `usize` and stopping
    /// at the first that does not fit.
    pub fn lower(spec: &ClientSpec, report: &mut confval::diagnostic::Report) -> (r: Option<Self>)
        ensures
            r == lowered_client(*spec),
            report_issues(*final(report)) == report_issues(*old(report)) + client_lowering_issues(
                *spec,
            ),
    {
        let ghost start = report_issues(*report);
        let read_buffer_bytes = match narrow_to_usize(&spec.read_buffer_bytes, report) {
            Some(v) => v,
            None => {
                assert(report_issues(*report) =~= start + client_lowering_issues(*spec));
                return None;
            },
        };
        let pub_sub_channel_capacity = match narrow_to_usize(&spec.pub_sub_channel_capacity, report) {
            Some(v) => v,
            None => {
                assert(report_issues(*report) =~= start + client_lowering_issues(*spec));
                return None;
            },
        };
        assert(report_issues(*report) =~= start + client_lowering_issues(*spec));
        Some(ClientConfig { read_buffer_bytes, pub_sub_channel_capacity })
    }
}

/// Client settings that pass validation always lower, keep their values, and
/// record nothing while lowering.
pub proof fn lemma_valid_client_spec_lowers(spec: ClientSpec)
    requires
        client_spec_valid(spec),
    ensures
        lowered_client(spec) == Some(
            ClientConfig {
                read_buffer_bytes: spec.read_buffer_bytes.value as usize,
                pub_sub_channel_capacity: spec.pub_sub_channel_capacity.value as usize,
            },
        ),
        client_lowering_issues(spec) == Seq::<IssueView>::empty(),
{
    assert(client_lowering_issues(spec) =~= Seq::<IssueView>::empty());
}

} // verus!
