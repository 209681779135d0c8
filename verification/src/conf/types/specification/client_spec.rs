//! The parsed form of the client settings.

use vstd::prelude::*;

use crate::conf::constraints::{check_range, range_issues};
use crate::conf::diagnostic::{report_issues, IssueView};
use crate::conf::spanned::Spanned;

verus! {

/// The read buffer a connection starts with when the file omits it.
pub const DEFAULT_READ_BUFFER_BYTES: usize = 4096usize;

/// The capacity of each pub/sub channel when the file omits it.
pub const DEFAULT_PUB_SUB_CHANNEL_CAPACITY: usize = 1024usize;

/// The client settings.
pub struct ClientSpec {
    /// Read buffer size per connection. Real applications will want to tune this
    /// value to their specific use case. There is a high likelihood that a larger
    /// read buffer will work better.
    pub read_buffer_bytes: Spanned<i64>,
    /// Capacity of each pub/sub broadcast channel. A message is stored in the
    /// channel until all subscribers have seen it, so a slow subscriber could
    /// result in messages being held indefinitely. When the channel's capacity
    /// fills up, publishing will result in old messages being dropped. This
    /// prevents slow consumers from blocking the entire system.
    pub pub_sub_channel_capacity: Spanned<i64>,
}

/// Every issue validating the client settings records: the read buffer must
/// lie in `1024..=65536` bytes and the channel capacity in `1..=65536`.
pub open spec fn client_issues(spec: ClientSpec) -> Seq<IssueView> {
    range_issues(
        1024,
        65536,
        Some(" bytes"@),
        Some("Buffer sizes below 1KB hurt throughput; above 64KB waste memory per connection."@),
        spec.read_buffer_bytes.value as int,
        "read_buffer_bytes"@,
    ) + range_issues(
        1,
        65536,
        None,
        Some("Large capacities hold more messages for slow subscribers but use more memory."@),
        spec.pub_sub_channel_capacity.value as int,
        "pub_sub_channel_capacity"@,
    )
}

/// The rules of the client settings, stated directly over the values.
pub open spec fn client_spec_valid(spec: ClientSpec) -> bool {
    &&& 1024 <= spec.read_buffer_bytes.value <= 65536
    &&& 1 <= spec.pub_sub_channel_capacity.value <= 65536
}

impl ClientSpec {
    /// The declared defaults, each with no source position.
    pub fn default() -> (spec: Self)
        ensures
            spec.read_buffer_bytes.value == DEFAULT_READ_BUFFER_BYTES,
            spec.pub_sub_channel_capacity.value == DEFAULT_PUB_SUB_CHANNEL_CAPACITY,
    {
        ClientSpec {
            read_buffer_bytes: Spanned::detached(4096),
            pub_sub_channel_capacity: Spanned::detached(1024),
        }
    }

    /// Checks both ranges, each appending to the report.
    pub fn validate(&self, report: &mut confval::diagnostic::Report)
        ensures
            report_issues(*final(report)) == report_issues(*old(report)) + client_issues(*self),
    {
        check_range(
            1024,
            65536,
            Some(" bytes"),
            Some("Buffer sizes below 1KB hurt throughput; above 64KB waste memory per connection."),
            &self.read_buffer_bytes,
            "read_buffer_bytes",
            report,
        );
        check_range(
            1,
            65536,
            None,
            Some("Large capacities hold more messages for slow subscribers but use more memory."),
            &self.pub_sub_channel_capacity,
            "pub_sub_channel_capacity",
            report,
        );
        assert(report_issues(*report) =~= report_issues(*old(report)) + client_issues(*self));
    }

    /// Every rule of the client settings; the block has no nested blocks.
    pub fn validate_all(&self, report: &mut confval::diagnostic::Report)
        ensures
            report_issues(*final(report)) == report_issues(*old(report)) + client_issues(*self),
    {
        self.validate(report);
    }
}

/// The client settings pass validation exactly when they keep both ranges.
pub proof fn lemma_client_validation_accepts_exactly_valid_specs(spec: ClientSpec)
    ensures
        client_issues(spec).len() == 0 <==> client_spec_valid(spec),
{
}

} // verus!
