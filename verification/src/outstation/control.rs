use vstd::prelude::*;
use vstd::bytes::{
    spec_u16_to_le_bytes,
    spec_u32_to_le_bytes,
    spec_u64_to_le_bytes,
    u16_to_le_bytes,
    u32_to_le_bytes,
    u64_to_le_bytes,
};
use crate::app::parse::{HeaderCollection, HeaderDetails, ObjectHeader, PrefixedVariation};
use crate::app::variations::{
    Group12Var1,
    Group41Var1,
    Group41Var2,
    Group41Var3,
    Group41Var4,
    Variation,
};
use crate::outstation::database::Database;
use crate::outstation::traits::{ControlHandler, OperateType};

verus! {

/// Outcome of a command, as an outstation reports it for each control point.
#[derive(Copy, Clone, Debug, PartialEq, Eq, Structural)]
pub enum CommandStatus {
    /// the command was accepted
    Success,
    /// the operate came too long after its select
    Timeout,
    /// no matching select preceded the operate
    NoSelect,
    /// the command was malformed
    FormatError,
    /// the outstation does not support the command for this point
    NotSupported,
    /// the point is already busy with a command
    AlreadyActive,
    /// the hardware failed
    HardwareError,
    /// the point is under local control
    Local,
    /// the request held too many operations
    TooManyOps,
    /// the master is not authorized
    NotAuthorized,
    /// automation inhibits the command
    AutomationInhibit,
    /// the outstation cannot process more commands now
    ProcessingLimited,
    /// the commanded value is out of range
    OutOfRange,
    /// a downstream device is under local control
    DownstreamLocal,
    /// the operation had already completed
    AlreadyComplete,
    /// the command is blocked
    Blocked,
    /// the command was cancelled
    Canceled,
    /// another master blocks the command
    BlockedOtherMaster,
    /// a downstream device failed
    DownstreamFail,
    /// the outstation did not take part
    NonParticipating,
    /// a status octet this library does not know
    Unknown(u8),
}

impl CommandStatus {
    /// The octet that carries this status.
    pub open spec fn spec_as_u8(self) -> u8 {
        match self {
            CommandStatus::Success => 0,
            CommandStatus::Timeout => 1,
            CommandStatus::NoSelect => 2,
            CommandStatus::FormatError => 3,
            CommandStatus::NotSupported => 4,
            CommandStatus::AlreadyActive => 5,
            CommandStatus::HardwareError => 6,
            CommandStatus::Local => 7,
            CommandStatus::TooManyOps => 8,
            CommandStatus::NotAuthorized => 9,
            CommandStatus::AutomationInhibit => 10,
            CommandStatus::ProcessingLimited => 11,
            CommandStatus::OutOfRange => 12,
            CommandStatus::DownstreamLocal => 13,
            CommandStatus::AlreadyComplete => 14,
            CommandStatus::Blocked => 15,
            CommandStatus::Canceled => 16,
            CommandStatus::BlockedOtherMaster => 17,
            CommandStatus::DownstreamFail => 18,
            CommandStatus::NonParticipating => 126,
            CommandStatus::Unknown(x) => x,
        }
    }

    /// The status that the octet `x` carries.
    pub open spec fn spec_from_u8(x: u8) -> CommandStatus {
        if x == 0 {
            CommandStatus::Success
        } else if x == 1 {
            CommandStatus::Timeout
        } else if x == 2 {
            CommandStatus::NoSelect
        } else if x == 3 {
            CommandStatus::FormatError
        } else if x == 4 {
            CommandStatus::NotSupported
        } else if x == 5 {
            CommandStatus::AlreadyActive
        } else if x == 6 {
            CommandStatus::HardwareError
        } else if x == 7 {
            CommandStatus::Local
        } else if x == 8 {
            CommandStatus::TooManyOps
        } else if x == 9 {
            CommandStatus::NotAuthorized
        } else if x == 10 {
            CommandStatus::AutomationInhibit
        } else if x == 11 {
            CommandStatus::ProcessingLimited
        } else if x == 12 {
            CommandStatus::OutOfRange
        } else if x == 13 {
            CommandStatus::DownstreamLocal
        } else if x == 14 {
            CommandStatus::AlreadyComplete
        } else if x == 15 {
            CommandStatus::Blocked
        } else if x == 16 {
            CommandStatus::Canceled
        } else if x == 17 {
            CommandStatus::BlockedOtherMaster
        } else if x == 18 {
            CommandStatus::DownstreamFail
        } else if x == 126 {
            CommandStatus::NonParticipating
        } else {
            CommandStatus::Unknown(x)
        }
    }

    /// The status of several points taken together: the first that is not a
    /// success, and success when there is none.
    pub open spec fn spec_first_error(self, other: CommandStatus) -> CommandStatus {
        if self == CommandStatus::Success {
            other
        } else {
            self
        }
    }

    /// The octet that carries this status.
    pub fn as_u8(self) -> (x: u8)
        ensures
            x == self.spec_as_u8(),
    {
        match self {
            CommandStatus::Success => 0,
            CommandStatus::Timeout => 1,
            CommandStatus::NoSelect => 2,
            CommandStatus::FormatError => 3,
            CommandStatus::NotSupported => 4,
            CommandStatus::AlreadyActive => 5,
            CommandStatus::HardwareError => 6,
            CommandStatus::Local => 7,
            CommandStatus::TooManyOps => 8,
            CommandStatus::NotAuthorized => 9,
            CommandStatus::AutomationInhibit => 10,
            CommandStatus::ProcessingLimited => 11,
            CommandStatus::OutOfRange => 12,
            CommandStatus::DownstreamLocal => 13,
            CommandStatus::AlreadyComplete => 14,
            CommandStatus::Blocked => 15,
            CommandStatus::Canceled => 16,
            CommandStatus::BlockedOtherMaster => 17,
            CommandStatus::DownstreamFail => 18,
            CommandStatus::NonParticipating => 126,
            CommandStatus::Unknown(x) => x,
        }
    }

    /// The status that the octet `x` carries.
    pub fn from(x: u8) -> (s: CommandStatus)
        ensures
            s == Self::spec_from_u8(x),
    {
        match x {
            0 => CommandStatus::Success,
            1 => CommandStatus::Timeout,
            2 => CommandStatus::NoSelect,
            3 => CommandStatus::FormatError,
            4 => CommandStatus::NotSupported,
            5 => CommandStatus::AlreadyActive,
            6 => CommandStatus::HardwareError,
            7 => CommandStatus::Local,
            8 => CommandStatus::TooManyOps,
            9 => CommandStatus::NotAuthorized,
            10 => CommandStatus::AutomationInhibit,
            11 => CommandStatus::ProcessingLimited,
            12 => CommandStatus::OutOfRange,
            13 => CommandStatus::DownstreamLocal,
            14 => CommandStatus::AlreadyComplete,
            15 => CommandStatus::Blocked,
            16 => CommandStatus::Canceled,
            17 => CommandStatus::BlockedOtherMaster,
            18 => CommandStatus::DownstreamFail,
            126 => CommandStatus::NonParticipating,
            _ => CommandStatus::Unknown(x),
        }
    }

    /// True for `Success`.
    pub fn is_success(&self) -> (b: bool)
        ensures
            b == (*self == CommandStatus::Success),
    {
        match self {
            CommandStatus::Success => true,
            _ => false,
        }
    }

    /// True for `NotSupported`.
    pub fn is_not_supported(&self) -> (b: bool)
        ensures
            b == (*self == CommandStatus::NotSupported),
    {
        match self {
            CommandStatus::NotSupported => true,
            _ => false,
        }
    }

    /// The status of `self` and `other` taken together: `self` unless it is a
    /// success.
    pub fn first_error(&self, other: CommandStatus) -> (s: CommandStatus)
        ensures
            s == self.spec_first_error(other),
    {
        match self {
            CommandStatus::Success => other,
            _ => *self,
        }
    }
}

/// A control as the master sent it.
#[derive(Copy, Clone, Debug, PartialEq, Eq, Structural)]
pub enum Control {
    /// control relay output block
    Group12Var1(Group12Var1),
    /// analog output, 32-bit integer
    Group41Var1(Group41Var1),
    /// analog output, 16-bit integer
    Group41Var2(Group41Var2),
    /// analog output, single precision
    Group41Var3(Group41Var3),
    /// analog output, double precision
    Group41Var4(Group41Var4),
}

/// Appends `src` to `out`.
pub fn append(out: &mut Vec<u8>, src: &Vec<u8>)
    ensures
        final(out)@ == old(out)@ + src@,
{
    let n: usize = src.len();
    let mut k: usize = 0;
    while k < n
        invariant
            n == src@.len(),
            k <= n,
            out@ == old(out)@ + src@.subrange(0, k as int),
        decreases n - k,
    {
        out.push(src[k]);
        k = k + 1;
        proof {
            assert(out@ =~= old(out)@ + src@.subrange(0, k as int));
        }
    }
    proof {
        assert(src@.subrange(0, n as int) =~= src@);
    }
}

impl Control {
    /// Group and variation of the object that carries the control.
    pub open spec fn spec_variation(self) -> Variation {
        match self {
            Control::Group12Var1(_) => Variation { group: 12, var: 1 },
            Control::Group41Var1(_) => Variation { group: 41, var: 1 },
            Control::Group41Var2(_) => Variation { group: 41, var: 2 },
            Control::Group41Var3(_) => Variation { group: 41, var: 3 },
            Control::Group41Var4(_) => Variation { group: 41, var: 4 },
        }
    }

    /// The octets of the object, with `status` in place of the status that
    /// the master sent.
    pub open spec fn spec_encode(self, status: CommandStatus) -> Seq<u8> {
        match self {
            Control::Group12Var1(c) => seq![c.code, c.count] + spec_u32_to_le_bytes(c.on_time)
                + spec_u32_to_le_bytes(c.off_time) + seq![status.spec_as_u8()],
            Control::Group41Var1(c) => spec_u32_to_le_bytes(c.value as u32) + seq![
                status.spec_as_u8(),
            ],
            Control::Group41Var2(c) => spec_u16_to_le_bytes(c.value as u16) + seq![
                status.spec_as_u8(),
            ],
            Control::Group41Var3(c) => spec_u32_to_le_bytes(c.bits) + seq![status.spec_as_u8()],
            Control::Group41Var4(c) => spec_u64_to_le_bytes(c.bits) + seq![status.spec_as_u8()],
        }
    }

    /// Appends the octets of the object to `out`, with `status` in place of
    /// the status that the master sent.
    pub fn encode(self, status: CommandStatus, out: &mut Vec<u8>)
        ensures
            final(out)@ == old(out)@ + self.spec_encode(status),
    {
        match self {
            Control::Group12Var1(c) => {
                out.push(c.code);
                out.push(c.count);
                let on = u32_to_le_bytes(c.on_time);
                append(out, &on);
                let off = u32_to_le_bytes(c.off_time);
                append(out, &off);
                out.push(status.as_u8());
            },
            Control::Group41Var1(c) => {
                let value = u32_to_le_bytes(c.value as u32);
                append(out, &value);
                out.push(status.as_u8());
            },
            Control::Group41Var2(c) => {
                let value = u16_to_le_bytes(c.value as u16);
                append(out, &value);
                out.push(status.as_u8());
            },
            Control::Group41Var3(c) => {
                let value = u32_to_le_bytes(c.bits);
                append(out, &value);
                out.push(status.as_u8());
            },
            Control::Group41Var4(c) => {
                let value = u64_to_le_bytes(c.bits);
                append(out, &value);
                out.push(status.as_u8());
            },
        }
        proof {
            assert(out@ =~= old(out)@ + self.spec_encode(status));
        }
    }
}

impl PrefixedVariation {
    /// Number of objects.
    pub open spec fn spec_len(&self) -> int {
        match self {
            PrefixedVariation::Group12Var1(v) => v@.len() as int,
            PrefixedVariation::Group41Var1(v) => v@.len() as int,
            PrefixedVariation::Group41Var2(v) => v@.len() as int,
            PrefixedVariation::Group41Var3(v) => v@.len() as int,
            PrefixedVariation::Group41Var4(v) => v@.len() as int,
        }
    }

    /// The `i`-th control and its index.
    pub open spec fn spec_point(&self, i: int) -> (Control, u16) {
        match self {
            PrefixedVariation::Group12Var1(v) => (Control::Group12Var1(v@[i].0), v@[i].1),
            PrefixedVariation::Group41Var1(v) => (Control::Group41Var1(v@[i].0), v@[i].1),
            PrefixedVariation::Group41Var2(v) => (Control::Group41Var2(v@[i].0), v@[i].1),
            PrefixedVariation::Group41Var3(v) => (Control::Group41Var3(v@[i].0), v@[i].1),
            PrefixedVariation::Group41Var4(v) => (Control::Group41Var4(v@[i].0), v@[i].1),
        }
    }

    /// Group and variation of the objects.
    pub open spec fn spec_variation(&self) -> Variation {
        match self {
            PrefixedVariation::Group12Var1(_) => Variation { group: 12, var: 1 },
            PrefixedVariation::Group41Var1(_) => Variation { group: 41, var: 1 },
            PrefixedVariation::Group41Var2(_) => Variation { group: 41, var: 2 },
            PrefixedVariation::Group41Var3(_) => Variation { group: 41, var: 3 },
            PrefixedVariation::Group41Var4(_) => Variation { group: 41, var: 4 },
        }
    }

    /// Number of objects.
    pub fn len(&self) -> (n: usize)
        ensures
            n == self.spec_len(),
    {
        match self {
            PrefixedVariation::Group12Var1(v) => v.len(),
            PrefixedVariation::Group41Var1(v) => v.len(),
            PrefixedVariation::Group41Var2(v) => v.len(),
            PrefixedVariation::Group41Var3(v) => v.len(),
            PrefixedVariation::Group41Var4(v) => v.len(),
        }
    }

    /// The `i`-th control and its index.
    pub fn point(&self, i: usize) -> (p: (Control, u16))
        requires
            i < self.spec_len(),
        ensures
            p == self.spec_point(i as int),
    {
        match self {
            PrefixedVariation::Group12Var1(v) => (Control::Group12Var1(v[i].0), v[i].1),
            PrefixedVariation::Group41Var1(v) => (Control::Group41Var1(v[i].0), v[i].1),
            PrefixedVariation::Group41Var2(v) => (Control::Group41Var2(v[i].0), v[i].1),
            PrefixedVariation::Group41Var3(v) => (Control::Group41Var3(v[i].0), v[i].1),
            PrefixedVariation::Group41Var4(v) => (Control::Group41Var4(v[i].0), v[i].1),
        }
    }

    /// Group and variation of the objects.
    pub fn variation(&self) -> (v: Variation)
        ensures
            v == self.spec_variation(),
    {
        match self {
            PrefixedVariation::Group12Var1(_) => Variation { group: 12, var: 1 },
            PrefixedVariation::Group41Var1(_) => Variation { group: 41, var: 1 },
            PrefixedVariation::Group41Var2(_) => Variation { group: 41, var: 2 },
            PrefixedVariation::Group41Var3(_) => Variation { group: 41, var: 3 },
            PrefixedVariation::Group41Var4(_) => Variation { group: 41, var: 4 },
        }
    }
}

/// The octets that open the echo of a control header: group, variation,
/// qualifier and count.
pub open spec fn echo_head(details: HeaderDetails) -> Seq<u8> {
    match details {
        HeaderDetails::OneByteCountAndPrefix(count, points) => seq![
            points.spec_variation().group,
            points.spec_variation().var,
            0x17u8,
            count,
        ],
        HeaderDetails::TwoByteCountAndPrefix(count, points) => seq![
            points.spec_variation().group,
            points.spec_variation().var,
            0x28u8,
        ] + spec_u16_to_le_bytes(count),
        _ => Seq::empty(),
    }
}

/// The controls of a header, or none where the header holds no controls.
pub open spec fn controls_of(details: HeaderDetails) -> Option<PrefixedVariation> {
    match details {
        HeaderDetails::OneByteCountAndPrefix(_, points) => Some(points),
        HeaderDetails::TwoByteCountAndPrefix(_, points) => Some(points),
        _ => None,
    }
}

/// Number of controls in a header.
pub open spec fn num_controls(details: HeaderDetails) -> int {
    match controls_of(details) {
        Some(points) => points.spec_len(),
        None => 0,
    }
}

/// The index of a control as the echo carries it: one octet under the
/// one-octet qualifier, two under the other.
pub open spec fn echo_index(details: HeaderDetails, index: u16) -> Seq<u8> {
    match details {
        HeaderDetails::OneByteCountAndPrefix(_, _) => seq![index as u8],
        _ => spec_u16_to_le_bytes(index),
    }
}

/// Echo of the first `n` controls of a header. The status of the `i`-th is
/// `statuses[base + i]`.
pub open spec fn echo_points(
    details: HeaderDetails,
    statuses: Seq<CommandStatus>,
    base: int,
    n: int,
) -> Seq<u8>
    decreases n,
{
    if n <= 0 {
        Seq::empty()
    } else {
        match controls_of(details) {
            Some(points) => {
                let (control, index) = points.spec_point(n - 1);
                echo_points(details, statuses, base, n - 1) + echo_index(details, index)
                    + control.spec_encode(statuses[base + n - 1])
            },
            None => Seq::empty(),
        }
    }
}

/// Number of controls in the first `k` headers.
pub open spec fn count_controls(headers: Seq<ObjectHeader>, k: int) -> int
    decreases k,
{
    if k <= 0 {
        0
    } else {
        count_controls(headers, k - 1) + num_controls(headers[k - 1].details)
    }
}

/// Echo of the first `k` headers: each header as it came, each control with
/// its status from `statuses`, which lists the statuses of all controls in
/// the order of the request.
pub open spec fn echo_headers(headers: Seq<ObjectHeader>, statuses: Seq<CommandStatus>, k: int) -> Seq<u8>
    decreases k,
{
    if k <= 0 {
        Seq::empty()
    } else {
        let details = headers[k - 1].details;
        echo_headers(headers, statuses, k - 1) + echo_head(details) + echo_points(
            details,
            statuses,
            count_controls(headers, k - 1),
            num_controls(details),
        )
    }
}

/// Number of octets that one control takes in the echo: its index and its
/// object.
pub open spec fn echo_point_length(details: HeaderDetails) -> int {
    match details {
        HeaderDetails::OneByteCountAndPrefix(_, points) => 1 + control_size(
            points.spec_variation(),
        ),
        HeaderDetails::TwoByteCountAndPrefix(_, points) => 2 + control_size(
            points.spec_variation(),
        ),
        _ => 0,
    }
}

/// Number of octets that the object of a control takes.
pub open spec fn control_size(variation: Variation) -> int {
    if variation.group == 12 {
        11
    } else if variation.var == 1 || variation.var == 3 {
        5
    } else if variation.var == 2 {
        3
    } else {
        9
    }
}

/// Number of octets that a header takes in the echo, its controls
/// included.
pub open spec fn echo_header_length(details: HeaderDetails) -> int {
    match details {
        HeaderDetails::OneByteCountAndPrefix(_, points) => 4 + points.spec_len()
            * echo_point_length(details),
        HeaderDetails::TwoByteCountAndPrefix(_, points) => 5 + points.spec_len()
            * echo_point_length(details),
        _ => 0,
    }
}

/// Number of octets that the echo of the first `k` headers takes. It does
/// not depend on the statuses of the controls.
pub open spec fn echo_length(headers: Seq<ObjectHeader>, k: int) -> int
    decreases k,
{
    if k <= 0 {
        0
    } else {
        echo_length(headers, k - 1) + echo_header_length(headers[k - 1].details)
    }
}

/// The echo of controls takes the same number of octets whatever their
/// statuses.
pub proof fn lemma_echo_points_length(
    details: HeaderDetails,
    statuses: Seq<CommandStatus>,
    base: int,
    n: int,
)
    requires
        0 <= n <= num_controls(details),
    ensures
        echo_points(details, statuses, base, n).len() == n * echo_point_length(details),
    decreases n,
{
    vstd::bytes::lemma_auto_spec_u16_to_from_le_bytes();
    vstd::bytes::lemma_auto_spec_u32_to_from_le_bytes();
    vstd::bytes::lemma_auto_spec_u64_to_from_le_bytes();
    if n > 0 {
        lemma_echo_points_length(details, statuses, base, n - 1);
        let points = controls_of(details)->0;
        let (control, index) = points.spec_point(n - 1);
        assert(control.spec_encode(statuses[base + n - 1]).len() == control_size(
            points.spec_variation(),
        ));
        assert(n * echo_point_length(details) == (n - 1) * echo_point_length(details)
            + echo_point_length(details)) by (nonlinear_arith);
    } else {
        assert(0 * echo_point_length(details) == 0);
    }
}

/// The echo of headers takes the same number of octets whatever the
/// statuses of their controls.
pub proof fn lemma_echo_length(headers: Seq<ObjectHeader>, statuses: Seq<CommandStatus>, k: int)
    requires
        0 <= k <= headers.len(),
        forall|i: int| 0 <= i < headers.len() ==> is_control_header((#[trigger] headers[i]).details),
    ensures
        echo_headers(headers, statuses, k).len() == echo_length(headers, k),
        echo_length(headers, k) >= 0,
    decreases k,
{
    vstd::bytes::lemma_auto_spec_u16_to_from_le_bytes();
    if k > 0 {
        lemma_echo_length(headers, statuses, k - 1);
        let details = headers[k - 1].details;
        assert(is_control_header(details));
        lemma_echo_points_length(
            details,
            statuses,
            count_controls(headers, k - 1),
            num_controls(details),
        );
        lemma_echo_header_length(details);
    }
}

/// No header takes a negative number of octets in the echo.
pub proof fn lemma_echo_header_length(details: HeaderDetails)
    ensures
        echo_header_length(details) >= 0,
{
    match details {
        HeaderDetails::OneByteCountAndPrefix(_, points) => {
            assert(points.spec_len() * echo_point_length(details) >= 0) by (nonlinear_arith)
                requires
                    points.spec_len() >= 0,
                    echo_point_length(details) >= 0,
            ;
        },
        HeaderDetails::TwoByteCountAndPrefix(_, points) => {
            assert(points.spec_len() * echo_point_length(details) >= 0) by (nonlinear_arith)
                requires
                    points.spec_len() >= 0,
                    echo_point_length(details) >= 0,
            ;
        },
        _ => {},
    }
}

/// The echo of more headers is no shorter than that of fewer.
pub proof fn lemma_echo_length_monotonic(headers: Seq<ObjectHeader>, k: int, n: int)
    requires
        0 <= k <= n,
    ensures
        0 <= echo_length(headers, k) <= echo_length(headers, n),
    decreases n,
{
    if n > 0 {
        lemma_echo_header_length(headers[n - 1].details);
        if n > k {
            lemma_echo_length_monotonic(headers, k, n - 1);
        } else {
            lemma_echo_length_monotonic(headers, k - 1, n - 1);
        }
    }
}

/// The status of the first `n` controls taken together: the first that is
/// not a success, and success when there is none.
pub open spec fn aggregate(statuses: Seq<CommandStatus>, n: int) -> CommandStatus
    decreases n,
{
    if n <= 0 {
        CommandStatus::Success
    } else {
        aggregate(statuses, n - 1).spec_first_error(statuses[n - 1])
    }
}

/// The same status for each of `n` controls.
pub open spec fn uniform(status: CommandStatus, n: int) -> Seq<CommandStatus> {
    Seq::new(n as nat, |i: int| status)
}

/// The echo of controls depends only on the statuses it reads.
pub proof fn lemma_echo_points_prefix(
    details: HeaderDetails,
    a: Seq<CommandStatus>,
    b: Seq<CommandStatus>,
    base: int,
    n: int,
)
    requires
        0 <= base,
        base + n <= a.len(),
        base + n <= b.len(),
        forall|i: int| base <= i < base + n ==> a[i] == b[i],
    ensures
        echo_points(details, a, base, n) == echo_points(details, b, base, n),
    decreases n,
{
    if n > 0 {
        lemma_echo_points_prefix(details, a, b, base, n - 1);
    }
}

/// The number of controls never goes down from header to header.
pub proof fn lemma_count_controls_monotonic(headers: Seq<ObjectHeader>, k: int)
    ensures
        count_controls(headers, k) >= 0,
        k > 0 ==> count_controls(headers, k) >= count_controls(headers, k - 1),
    decreases k,
{
    if k > 0 {
        lemma_count_controls_monotonic(headers, k - 1);
    }
}

/// The echo of headers depends only on the statuses of their controls.
pub proof fn lemma_echo_headers_prefix(
    headers: Seq<ObjectHeader>,
    a: Seq<CommandStatus>,
    b: Seq<CommandStatus>,
    k: int,
)
    requires
        count_controls(headers, k) <= a.len(),
        count_controls(headers, k) <= b.len(),
        forall|i: int| 0 <= i < count_controls(headers, k) ==> a[i] == b[i],
    ensures
        echo_headers(headers, a, k) == echo_headers(headers, b, k),
    decreases k,
{
    if k > 0 {
        lemma_count_controls_monotonic(headers, k);
        lemma_count_controls_monotonic(headers, k - 1);
        lemma_echo_headers_prefix(headers, a, b, k - 1);
        lemma_echo_points_prefix(
            headers[k - 1].details,
            a,
            b,
            count_controls(headers, k - 1),
            num_controls(headers[k - 1].details),
        );
    }
}

/// The status of controls taken together depends only on their statuses.
pub proof fn lemma_aggregate_prefix(a: Seq<CommandStatus>, b: Seq<CommandStatus>, n: int)
    requires
        n <= a.len(),
        n <= b.len(),
        forall|i: int| 0 <= i < n ==> a[i] == b[i],
    ensures
        aggregate(a, n) == aggregate(b, n),
    decreases n,
{
    if n > 0 {
        lemma_aggregate_prefix(a, b, n - 1);
    }
}

/// Controls that all have the same status have that status taken together,
/// and success when there are none.
pub proof fn lemma_aggregate_uniform(status: CommandStatus, len: int, n: int)
    requires
        0 <= n <= len,
    ensures
        aggregate(uniform(status, len), n) == if n == 0 {
            CommandStatus::Success
        } else {
            status
        },
    decreases n,
{
    if n > 0 {
        lemma_aggregate_uniform(status, len, n - 1);
    }
}

/// A success of all controls together means that each one succeeded.
pub proof fn lemma_aggregate_success(statuses: Seq<CommandStatus>, n: int)
    requires
        0 <= n <= statuses.len(),
    ensures
        aggregate(statuses, n) == CommandStatus::Success <==> forall|i: int|
            0 <= i < n ==> statuses[i] == CommandStatus::Success,
    decreases n,
{
    if n > 0 {
        lemma_aggregate_success(statuses, n - 1);
    }
}

/// A header in a control request that holds no controls.
#[derive(Copy, Clone, Debug, PartialEq, Eq, Structural)]
pub struct NonControlHeader {
    /// group and variation of the header
    pub variation: Variation,
}

/// True when the header holds controls.
pub open spec fn is_control_header(details: HeaderDetails) -> bool {
    controls_of(details) is Some
}

/// The first header among the first `n` that holds no controls.
pub open spec fn first_non_control(headers: Seq<ObjectHeader>, n: int) -> Option<int>
    decreases n,
{
    if n <= 0 {
        None
    } else {
        match first_non_control(headers, n - 1) {
            Some(i) => Some(i),
            None => if is_control_header(headers[n - 1].details) {
                None
            } else {
                Some(n - 1)
            },
        }
    }
}

/// The object headers of a request, all of which hold controls.
pub struct ControlCollection<'a> {
    headers: &'a HeaderCollection,
}

/// What became of the controls of one request.
pub struct ControlOutcome {
    /// the status of each control, in the order of the request
    pub statuses: Vec<CommandStatus>,
    /// the status of all controls taken together
    pub status: CommandStatus,
    /// the echo of the request with each control's status
    pub response: Vec<u8>,
}

/// Brackets the controls of one fragment: the handler hears of the fragment
/// before its first control and once more when all controls are through.
pub struct ControlTransaction {
    started: bool,
}

impl ControlTransaction {
    /// True once the handler has been told that controls follow.
    pub closed spec fn is_started(&self) -> bool {
        self.started
    }

    /// A transaction that has not reached the handler yet.
    pub fn new() -> (t: ControlTransaction)
        ensures
            !t.is_started(),
    {
        ControlTransaction { started: false }
    }

    /// Tells the handler that controls follow, unless it has been told:
    /// then the handler is left alone.
    pub fn start<C: ControlHandler>(&mut self, handler: &mut C)
        ensures
            final(self).is_started(),
            old(self).is_started() ==> *final(handler) == *old(handler),
    {
        if !self.started {
            self.started = true;
            handler.begin_fragment();
        }
    }

    /// Hands a control to the handler for selection.
    pub fn select<C: ControlHandler>(
        &mut self,
        handler: &mut C,
        control: Control,
        index: u16,
        database: &mut Database,
    ) -> (status: CommandStatus)
        ensures
            final(self).is_started(),
    {
        self.start(handler);
        handler.select(control, index, database)
    }

    /// Hands a control to the handler for execution.
    pub fn operate<C: ControlHandler>(
        &mut self,
        handler: &mut C,
        control: Control,
        index: u16,
        op_type: OperateType,
        database: &mut Database,
    ) -> (status: CommandStatus)
        ensures
            final(self).is_started(),
    {
        self.start(handler);
        handler.operate(control, index, op_type, database)
    }

    /// Tells the handler that the controls are through, if it was told that
    /// controls follow. Returns whether it was. A handler that was not told
    /// of any control is left alone.
    pub fn end<C: ControlHandler>(self, handler: &mut C) -> (ended: bool)
        ensures
            ended == self.is_started(),
            !self.is_started() ==> *final(handler) == *old(handler),
    {
        if self.started {
            handler.end_fragment();
        }
        self.started
    }
}

/// What is asked of the handler for each control.
#[derive(Copy, Clone, Debug, PartialEq, Eq, Structural)]
pub enum ControlPhase {
    /// selection
    Select,
    /// execution
    Operate(OperateType),
}

/// True when a control with `done` controls before it in the request is
/// beyond the limit on controls per request.
pub open spec fn beyond_limit(done: int, max_controls: Option<u16>) -> bool {
    match max_controls {
        Some(max) => done >= max,
        None => false,
    }
}

impl<'a> ControlCollection<'a> {
    /// The headers of the request.
    pub closed spec fn headers(&self) -> Seq<ObjectHeader> {
        self.headers.headers@
    }

    /// Digest of the octets that the controls were read from.
    pub closed spec fn spec_hash(&self) -> u64 {
        self.headers.spec_hash()
    }

    /// Every header holds controls.
    pub closed spec fn wf(&self) -> bool {
        forall|i: int|
            0 <= i < self.headers.headers@.len() ==> is_control_header(
                (#[trigger] self.headers.headers@[i]).details,
            )
    }

    /// True when at least one control of the request is handed to the
    /// handler: the request holds a control, and the limit on controls per
    /// request is not zero.
    pub open spec fn reaches_handler(&self, max_controls: Option<u16>) -> bool {
        self.spec_num_controls() > 0 && !beyond_limit(0, max_controls)
    }

    /// Number of controls in the request.
    pub open spec fn spec_num_controls(&self) -> int {
        count_controls(self.headers(), self.headers().len() as int)
    }

    /// Number of octets that the echo of the request takes, whatever the
    /// statuses of its controls.
    pub open spec fn spec_echo_length(&self) -> int {
        echo_length(self.headers(), self.headers().len() as int)
    }

    /// The echo of the request with the given status for each control.
    pub open spec fn spec_echo(&self, statuses: Seq<CommandStatus>) -> Seq<u8> {
        echo_headers(self.headers(), statuses, self.headers().len() as int)
    }

    /// Takes the headers of a request as controls. Fails with the first
    /// header that holds none.
    pub fn from(headers: &'a HeaderCollection) -> (r: Result<ControlCollection<'a>, NonControlHeader>)
        ensures
            match first_non_control(headers.headers@, headers.headers@.len() as int) {
                Some(i) => r == Err::<ControlCollection<'a>, NonControlHeader>(
                    NonControlHeader { variation: headers.headers@[i].variation },
                ),
                None => r is Ok && r->Ok_0.wf() && r->Ok_0.headers() == headers.headers@
                    && r->Ok_0.spec_hash() == headers.spec_hash(),
            },
    {
        let n: usize = headers.headers.len();
        let mut i: usize = 0;
        while i < n
            invariant
                n == headers.headers@.len(),
                i <= n,
                first_non_control(headers.headers@, i as int) is None,
                forall|j: int|
                    0 <= j < i ==> is_control_header((#[trigger] headers.headers@[j]).details),
            decreases n - i,
        {
            let is_control = match &headers.headers[i].details {
                HeaderDetails::OneByteCountAndPrefix(_, _) => true,
                HeaderDetails::TwoByteCountAndPrefix(_, _) => true,
                _ => false,
            };
            if !is_control {
                proof {
                    lemma_first_non_control_stays(headers.headers@, i as int + 1, n as int);
                }
                return Err(NonControlHeader { variation: headers.headers[i].variation });
            }
            i = i + 1;
        }
        Ok(ControlCollection { headers })
    }

    /// Tests whether the echo of the request fits into `room` octets. The
    /// length of the echo does not depend on what becomes of the controls,
    /// so the test can be made before any control is handed over.
    pub fn echo_fits(&self, room: usize) -> (fits: bool)
        requires
            self.wf(),
        ensures
            fits == (self.spec_echo_length() <= room),
    {
        let n: usize = self.headers.headers.len();
        let mut total: usize = 0;
        let mut k: usize = 0;
        while k < n
            invariant
                self.wf(),
                n == self.headers().len(),
                k <= n,
                total == echo_length(self.headers(), k as int),
                total <= room,
            decreases n - k,
        {
            let details = &self.headers.headers[k].details;
            let (head, prefix): (usize, usize) = match details {
                HeaderDetails::OneByteCountAndPrefix(_, _) => (4, 1),
                _ => (5, 2),
            };
            proof {
                lemma_echo_length_monotonic(self.headers(), k as int + 1, n as int);
            }
            let length = match get_controls(details) {
                Some(points) => {
                    let v = points.variation();
                    let size: usize = if v.group == 12 {
                        11
                    } else if v.var == 1 || v.var == 3 {
                        5
                    } else if v.var == 2 {
                        3
                    } else {
                        9
                    };
                    match points.len().checked_mul(prefix + size) {
                        Some(product) => product.checked_add(head),
                        None => None,
                    }
                },
                None => Some(0),
            };
            let next = match length {
                Some(length) => total.checked_add(length),
                None => None,
            };
            match next {
                Some(next) => {
                    if next > room {
                        return false;
                    }
                    total = next;
                },
                None => {
                    return false;
                },
            }
            k = k + 1;
        }
        true
    }

    /// Digest of the octets that the controls were read from.
    pub fn hash(&self) -> (h: u64)
        ensures
            h == self.spec_hash(),
    {
        self.headers.hash()
    }

    /// The echo of the request with `status` for every control. The handler
    /// is not involved.
    pub fn respond_with_status(&self, status: CommandStatus) -> (response: Vec<u8>)
        requires
            self.wf(),
        ensures
            response@ == self.spec_echo(uniform(status, self.spec_num_controls())),
    {
        let n: usize = self.headers.headers.len();
        let mut out: Vec<u8> = Vec::new();
        let mut k: usize = 0;
        let ghost all = uniform(status, self.spec_num_controls());
        proof {
            lemma_count_controls_range(self.headers(), 0, n as int);
        }
        while k < n
            invariant
                self.wf(),
                n == self.headers().len(),
                k <= n,
                all == uniform(status, self.spec_num_controls()),
                out@ == echo_headers(self.headers(), all, k as int),
                0 <= count_controls(self.headers(), k as int) <= self.spec_num_controls(),
            decreases n - k,
        {
            let details = &self.headers.headers[k].details;
            let ghost base = count_controls(self.headers(), k as int);
            proof {
                lemma_count_controls_range(self.headers(), k as int + 1, n as int);
                lemma_count_controls_monotonic(self.headers(), k as int + 1);
            }
            write_echo_head(details, &mut out);
            let ghost start = out@;
            if let Some(points) = get_controls(details) {
                let m: usize = points.len();
                let mut j: usize = 0;
                while j < m
                    invariant
                        m == points.spec_len(),
                        controls_of(*details) == Some(*points),
                        j <= m,
                        0 <= base,
                        base + m <= all.len(),
                        all == uniform(status, all.len() as int),
                        out@ == start + echo_points(*details, all, base, j as int),
                    decreases m - j,
                {
                    let (control, index) = points.point(j);
                    write_echo_index(details, index, &mut out);
                    control.encode(status, &mut out);
                    j = j + 1;
                    proof {
                        assert(out@ =~= start + echo_points(*details, all, base, j as int));
                    }
                }
            }
            k = k + 1;
            proof {
                assert(out@ =~= echo_headers(self.headers(), all, k as int));
            }
        }
        out
    }

    /// Hands each control to the handler, in the order of the request, and
    /// builds the echo of the request from the statuses it returns. Once
    /// `max_controls` controls have been handed over, the handler sees no
    /// more: every further control has the status `NotSupported`.
    fn run<C: ControlHandler>(
        &self,
        phase: ControlPhase,
        transaction: &mut ControlTransaction,
        handler: &mut C,
        database: &mut Database,
        max_controls: Option<u16>,
    ) -> (outcome: ControlOutcome)
        requires
            self.wf(),
        ensures
            outcome.statuses@.len() == self.spec_num_controls(),
            forall|i: int|
                0 <= i < outcome.statuses@.len() && beyond_limit(i, max_controls)
                    ==> outcome.statuses@[i] == CommandStatus::NotSupported,
            outcome.status == aggregate(outcome.statuses@, outcome.statuses@.len() as int),
            outcome.response@ == self.spec_echo(outcome.statuses@),
            final(transaction).is_started() == (old(transaction).is_started()
                || self.reaches_handler(max_controls)),
            !self.reaches_handler(max_controls) ==> *final(handler) == *old(handler) && final(database)@ == old(database)@,
    {
        let n: usize = self.headers.headers.len();
        let mut out: Vec<u8> = Vec::new();
        let mut statuses: Vec<CommandStatus> = Vec::new();
        let mut total = CommandStatus::Success;
        let mut k: usize = 0;
        while k < n
            invariant
                self.wf(),
                n == self.headers().len(),
                k <= n,
                statuses@.len() == count_controls(self.headers(), k as int),
                forall|i: int|
                    0 <= i < statuses@.len() && beyond_limit(i, max_controls) ==> statuses@[i]
                        == CommandStatus::NotSupported,
                total == aggregate(statuses@, statuses@.len() as int),
                out@ == echo_headers(self.headers(), statuses@, k as int),
                transaction.is_started() == (old(transaction).is_started() || (statuses@.len() > 0
                    && !beyond_limit(0, max_controls))),
                !(statuses@.len() > 0 && !beyond_limit(0, max_controls)) ==> *handler == *old(handler) && database@ == old(database)@,
            decreases n - k,
        {
            let details = &self.headers.headers[k].details;
            let ghost base = count_controls(self.headers(), k as int);
            let ghost before = statuses@;
            let ghost echoed = out@;
            write_echo_head(details, &mut out);
            let ghost start = out@;
            if let Some(points) = get_controls(details) {
                let m: usize = points.len();
                let mut j: usize = 0;
                while j < m
                    invariant
                        m == points.spec_len(),
                        controls_of(*details) == Some(*points),
                        j <= m,
                        base == before.len(),
                        statuses@.len() == base + j,
                        forall|i: int| 0 <= i < base ==> statuses@[i] == before[i],
                        forall|i: int|
                            0 <= i < statuses@.len() && beyond_limit(i, max_controls)
                                ==> statuses@[i] == CommandStatus::NotSupported,
                        total == aggregate(statuses@, statuses@.len() as int),
                        out@ == start + echo_points(*details, statuses@, base, j as int),
                        transaction.is_started() == (old(transaction).is_started() || (
                        statuses@.len() > 0 && !beyond_limit(0, max_controls))),
                        !(statuses@.len() > 0 && !beyond_limit(0, max_controls)) ==> *handler
                            == *old(handler) && database@ == old(database)@,
                    decreases m - j,
                {
                    let (control, index) = points.point(j);
                    let over = match max_controls {
                        Some(max) => statuses.len() >= max as usize,
                        None => false,
                    };
                    let status = if over {
                        CommandStatus::NotSupported
                    } else {
                        match phase {
                            ControlPhase::Select => transaction.select(
                                handler,
                                control,
                                index,
                                database,
                            ),
                            ControlPhase::Operate(op_type) => transaction.operate(
                                handler,
                                control,
                                index,
                                op_type,
                                database,
                            ),
                        }
                    };
                    let ghost prior = statuses@;
                    statuses.push(status);
                    total = total.first_error(status);
                    write_echo_index(details, index, &mut out);
                    control.encode(status, &mut out);
                    proof {
                        lemma_aggregate_prefix(prior, statuses@, prior.len() as int);
                        lemma_echo_points_prefix(*details, prior, statuses@, base, j as int);
                    }
                    j = j + 1;
                    proof {
                        assert(out@ =~= start + echo_points(*details, statuses@, base, j as int));
                    }
                }
            }
            proof {
                lemma_count_controls_monotonic(self.headers(), k as int);
                lemma_echo_headers_prefix(self.headers(), before, statuses@, k as int);
            }
            k = k + 1;
            proof {
                assert(out@ =~= echo_headers(self.headers(), statuses@, k as int));
            }
        }
        ControlOutcome { statuses, status: total, response: out }
    }

    /// Hands each control to the handler for selection and builds the echo
    /// of the request from the statuses it returns. The handler sees at most
    /// `max_controls` controls; every further one has the status
    /// `NotSupported`. The overall status is the first that is not a success.
    pub fn select_with_response<C: ControlHandler>(
        &self,
        transaction: &mut ControlTransaction,
        handler: &mut C,
        database: &mut Database,
        max_controls: Option<u16>,
    ) -> (outcome: ControlOutcome)
        requires
            self.wf(),
        ensures
            outcome.statuses@.len() == self.spec_num_controls(),
            forall|i: int|
                0 <= i < outcome.statuses@.len() && beyond_limit(i, max_controls)
                    ==> outcome.statuses@[i] == CommandStatus::NotSupported,
            outcome.status == aggregate(outcome.statuses@, outcome.statuses@.len() as int),
            outcome.response@ == self.spec_echo(outcome.statuses@),
            final(transaction).is_started() == (old(transaction).is_started()
                || self.reaches_handler(max_controls)),
            !self.reaches_handler(max_controls) ==> *final(handler) == *old(handler) && final(database)@ == old(database)@,
    {
        self.run(ControlPhase::Select, transaction, handler, database, max_controls)
    }

    /// Hands each control to the handler for execution and builds the echo
    /// of the request from the statuses it returns. The handler sees at most
    /// `max_controls` controls; every further one has the status
    /// `NotSupported`. The overall status is the first that is not a success.
    pub fn operate_with_response<C: ControlHandler>(
        &self,
        operate_type: OperateType,
        transaction: &mut ControlTransaction,
        handler: &mut C,
        database: &mut Database,
        max_controls: Option<u16>,
    ) -> (outcome: ControlOutcome)
        requires
            self.wf(),
        ensures
            outcome.statuses@.len() == self.spec_num_controls(),
            forall|i: int|
                0 <= i < outcome.statuses@.len() && beyond_limit(i, max_controls)
                    ==> outcome.statuses@[i] == CommandStatus::NotSupported,
            outcome.status == aggregate(outcome.statuses@, outcome.statuses@.len() as int),
            outcome.response@ == self.spec_echo(outcome.statuses@),
            final(transaction).is_started() == (old(transaction).is_started()
                || self.reaches_handler(max_controls)),
            !self.reaches_handler(max_controls) ==> *final(handler) == *old(handler) && final(database)@ == old(database)@,
    {
        self.run(ControlPhase::Operate(operate_type), transaction, handler, database, max_controls)
    }

    /// Hands each control to the handler for execution, for a request that
    /// gets no response. The handler sees at most `max_controls` controls.
    /// Returns the status of each control.
    pub fn operate_no_ack<C: ControlHandler>(
        &self,
        transaction: &mut ControlTransaction,
        handler: &mut C,
        database: &mut Database,
        max_controls: Option<u16>,
    ) -> (statuses: Vec<CommandStatus>)
        requires
            self.wf(),
        ensures
            statuses@.len() == self.spec_num_controls(),
            forall|i: int|
                0 <= i < statuses@.len() && beyond_limit(i, max_controls) ==> statuses@[i]
                    == CommandStatus::NotSupported,
            final(transaction).is_started() == (old(transaction).is_started()
                || self.reaches_handler(max_controls)),
            !self.reaches_handler(max_controls) ==> *final(handler) == *old(handler) && final(database)@ == old(database)@,
    {
        let outcome = self.run(
            ControlPhase::Operate(OperateType::DirectOperateNoAck),
            transaction,
            handler,
            database,
            max_controls,
        );
        outcome.statuses
    }
}

/// The controls of a header, or none where the header holds no controls.
pub fn get_controls(details: &HeaderDetails) -> (r: Option<&PrefixedVariation>)
    ensures
        match r {
            Some(points) => controls_of(*details) == Some(*points),
            None => controls_of(*details) is None,
        },
{
    match details {
        HeaderDetails::OneByteCountAndPrefix(_, points) => Some(points),
        HeaderDetails::TwoByteCountAndPrefix(_, points) => Some(points),
        _ => None,
    }
}

/// Appends the octets that open the echo of a control header.
fn write_echo_head(details: &HeaderDetails, out: &mut Vec<u8>)
    ensures
        final(out)@ == old(out)@ + echo_head(*details),
{
    match details {
        HeaderDetails::OneByteCountAndPrefix(count, points) => {
            let v = points.variation();
            out.push(v.group);
            out.push(v.var);
            out.push(0x17);
            out.push(*count);
        },
        HeaderDetails::TwoByteCountAndPrefix(count, points) => {
            let v = points.variation();
            out.push(v.group);
            out.push(v.var);
            out.push(0x28);
            let c = u16_to_le_bytes(*count);
            append(out, &c);
        },
        _ => {},
    }
    proof {
        assert(out@ =~= old(out)@ + echo_head(*details));
    }
}

/// Appends the index of a control as the echo carries it.
fn write_echo_index(details: &HeaderDetails, index: u16, out: &mut Vec<u8>)
    ensures
        final(out)@ == old(out)@ + echo_index(*details, index),
{
    match details {
        HeaderDetails::OneByteCountAndPrefix(_, _) => {
            out.push(index as u8);
        },
        _ => {
            let i = u16_to_le_bytes(index);
            append(out, &i);
        },
    }
    proof {
        assert(out@ =~= old(out)@ + echo_index(*details, index));
    }
}

/// Where no header without controls is found, every header holds
/// controls.
pub proof fn lemma_all_control_headers(headers: Seq<ObjectHeader>, n: int)
    requires
        0 <= n <= headers.len(),
        first_non_control(headers, n) is None,
    ensures
        forall|i: int| 0 <= i < n ==> is_control_header((#[trigger] headers[i]).details),
    decreases n,
{
    if n > 0 {
        lemma_all_control_headers(headers, n - 1);
    }
}

/// Once a header without controls is found, looking further finds the same.
proof fn lemma_first_non_control_stays(headers: Seq<ObjectHeader>, n: int, m: int)
    requires
        0 <= n <= m,
        first_non_control(headers, n) is Some,
    ensures
        first_non_control(headers, m) == first_non_control(headers, n),
    decreases m - n,
{
    if m > n {
        lemma_first_non_control_stays(headers, n, m - 1);
    }
}

/// The number of controls in some headers is at most that in more headers.
proof fn lemma_count_controls_range(headers: Seq<ObjectHeader>, k: int, n: int)
    requires
        0 <= k <= n,
    ensures
        0 <= count_controls(headers, k) <= count_controls(headers, n),
    decreases n - k,
{
    lemma_count_controls_monotonic(headers, k);
    if n > k {
        lemma_count_controls_range(headers, k, n - 1);
        lemma_count_controls_monotonic(headers, n);
    }
}

} // verus!
