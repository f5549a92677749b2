use vstd::prelude::*;
use crate::link::address::EndpointAddress;
use crate::util::time::Millis;

verus! {

/// A capability that configuration switches on or off.
#[derive(Copy, Clone, Debug, PartialEq, Eq, Structural)]
pub enum Feature {
    /// switched on
    Enabled,
    /// switched off
    Disabled,
}

impl Feature {
    /// True when the capability is switched off.
    pub fn is_disabled(&self) -> (b: bool)
        ensures
            b == (*self == Feature::Disabled),
    {
        match self {
            Feature::Enabled => false,
            Feature::Disabled => true,
        }
    }
}

/// The capabilities of an outstation that configuration can switch.
#[derive(Copy, Clone, Debug, PartialEq, Eq, Structural)]
pub struct Features {
    /// requests by broadcast are carried out
    pub broadcast: Feature,
    /// unsolicited responses are sent
    pub unsolicited: Feature,
}

/// How much of the traffic is logged.
#[derive(Copy, Clone, Debug, PartialEq, Eq, Structural)]
pub enum DecodeLevel {
    /// nothing
    Nothing,
    /// the header of each fragment
    Header,
    /// also the object headers
    ObjectHeaders,
    /// also the values of the objects
    ObjectValues,
}

/// The size asked for a transmit buffer is out of range.
#[derive(Copy, Clone, Debug, PartialEq, Eq, Structural)]
pub enum BufferSizeError {
    /// smaller than the smallest fragment an outstation must be able to send
    TooSmall(usize),
    /// larger than the largest fragment
    TooBig(usize),
}

/// Size of a transmit buffer, between 249 and 2048 octets.
#[derive(Copy, Clone, Debug, PartialEq, Eq, Structural)]
pub struct BufferSize {
    size: usize,
}

impl BufferSize {
    /// Smallest size of a transmit buffer.
    pub const MIN: usize = 249;

    /// Largest size of a transmit buffer.
    pub const MAX: usize = 2048;

    /// The size held, always between `MIN` and `MAX`.
    pub closed spec fn view(&self) -> int {
        if self.size < Self::MIN {
            Self::MIN as int
        } else if self.size > Self::MAX {
            Self::MAX as int
        } else {
            self.size as int
        }
    }

    /// A buffer size is within its limits.
    pub proof fn lemma_range(self)
        ensures
            Self::MIN <= self@ <= Self::MAX,
    {
    }

    /// Takes `size` as the size of a transmit buffer, unless it is out of range.
    pub fn new(size: usize) -> (r: Result<BufferSize, BufferSizeError>)
        ensures
            size < Self::MIN ==> r == Err::<BufferSize, BufferSizeError>(
                BufferSizeError::TooSmall(size),
            ),
            size > Self::MAX ==> r == Err::<BufferSize, BufferSizeError>(
                BufferSizeError::TooBig(size),
            ),
            Self::MIN <= size <= Self::MAX ==> r is Ok && r->Ok_0@ == size,
    {
        if size < Self::MIN {
            Err(BufferSizeError::TooSmall(size))
        } else if size > Self::MAX {
            Err(BufferSizeError::TooBig(size))
        } else {
            Ok(BufferSize { size })
        }
    }

    /// The smallest buffer size.
    pub fn min() -> (r: BufferSize)
        ensures
            r@ == Self::MIN,
    {
        BufferSize { size: Self::MIN }
    }

    /// The largest buffer size.
    pub fn max() -> (r: BufferSize)
        ensures
            r@ == Self::MAX,
    {
        BufferSize { size: Self::MAX }
    }

    /// The size held.
    pub fn value(&self) -> (v: usize)
        ensures
            v == self@,
    {
        if self.size < Self::MIN {
            Self::MIN
        } else if self.size > Self::MAX {
            Self::MAX
        } else {
            self.size
        }
    }

    /// A buffer of this size, filled with zeros.
    pub fn create_buffer(&self) -> (buffer: Vec<u8>)
        ensures
            buffer@.len() == self@,
            forall|i: int| 0 <= i < buffer@.len() ==> buffer@[i] == 0,
    {
        let n: usize = self.value();
        let mut buffer: Vec<u8> = Vec::new();
        let mut i: usize = 0;
        while i < n
            invariant
                i <= n,
                buffer@.len() == i,
                forall|j: int| 0 <= j < buffer@.len() ==> buffer@[j] == 0,
            decreases n - i,
        {
            buffer.push(0);
            i = i + 1;
        }
        buffer
    }
}

/// Configuration of an outstation.
#[derive(Copy, Clone, Debug, PartialEq, Eq, Structural)]
pub struct OutstationConfig {
    /// address of the outstation
    pub outstation_address: EndpointAddress,
    /// address of the master
    pub master_address: EndpointAddress,
    /// how much of the traffic is logged
    pub decode_level: DecodeLevel,
    /// time to wait for the confirmation of a response
    pub confirm_timeout: Millis,
    /// time within which an operate must follow its select
    pub select_timeout: Millis,
    /// capabilities switched on or off
    pub features: Features,
    /// number of times an unsolicited response is repeated; `None` for no limit
    pub max_unsolicited_retries: Option<usize>,
    /// time to wait after an unconfirmed unsolicited response before the next
    pub unsolicited_retry_delay: Millis,
    /// time without traffic after which the link is tested; `None` for never
    pub keep_alive_timeout: Option<Millis>,
    /// number of headers of a read request that can be deferred; `None` for
    /// the default
    pub max_read_request_headers: Option<u16>,
    /// number of controls carried out per request; `None` for no limit
    pub max_controls_per_request: Option<u16>,
    /// size of the buffer for solicited responses
    pub solicited_buffer_size: BufferSize,
    /// size of the buffer for unsolicited responses
    pub unsolicited_buffer_size: BufferSize,
}

impl OutstationConfig {
    /// Number of headers of a read request that can be deferred by default.
    pub const DEFAULT_MAX_READ_REQUEST_HEADERS: u16 = 64;

    /// Time to wait for a confirmation by default, in milliseconds.
    pub const DEFAULT_CONFIRM_TIMEOUT_MS: u64 = 5000;

    /// Time within which an operate must follow its select by default, in
    /// milliseconds.
    pub const DEFAULT_SELECT_TIMEOUT_MS: u64 = 5000;

    /// Time to wait before the next unsolicited response by default, in
    /// milliseconds.
    pub const DEFAULT_UNSOLICITED_RETRY_DELAY_MS: u64 = 5000;

    /// Time without traffic after which the link is tested by default, in
    /// milliseconds.
    pub const DEFAULT_KEEP_ALIVE_MS: u64 = 60000;

    /// The configuration of an outstation with the given addresses and the
    /// default for everything else.
    pub fn new(outstation_address: EndpointAddress, master_address: EndpointAddress) -> (c:
        OutstationConfig)
        ensures
            c.outstation_address == outstation_address,
            c.master_address == master_address,
            c.decode_level == DecodeLevel::Nothing,
            c.confirm_timeout.millis == Self::DEFAULT_CONFIRM_TIMEOUT_MS,
            c.select_timeout.millis == Self::DEFAULT_SELECT_TIMEOUT_MS,
            c.features == (Features {
                broadcast: Feature::Enabled,
                unsolicited: Feature::Enabled,
            }),
            c.max_unsolicited_retries is None,
            c.unsolicited_retry_delay.millis == Self::DEFAULT_UNSOLICITED_RETRY_DELAY_MS,
            c.keep_alive_timeout == Some(Millis { millis: Self::DEFAULT_KEEP_ALIVE_MS }),
            c.max_read_request_headers is None,
            c.max_controls_per_request is None,
            c.solicited_buffer_size@ == BufferSize::MAX,
            c.unsolicited_buffer_size@ == BufferSize::MAX,
    {
        OutstationConfig {
            outstation_address,
            master_address,
            decode_level: DecodeLevel::Nothing,
            confirm_timeout: Millis { millis: Self::DEFAULT_CONFIRM_TIMEOUT_MS },
            select_timeout: Millis { millis: Self::DEFAULT_SELECT_TIMEOUT_MS },
            features: Features { broadcast: Feature::Enabled, unsolicited: Feature::Enabled },
            max_unsolicited_retries: None,
            unsolicited_retry_delay: Millis { millis: Self::DEFAULT_UNSOLICITED_RETRY_DELAY_MS },
            keep_alive_timeout: Some(Millis { millis: Self::DEFAULT_KEEP_ALIVE_MS }),
            max_read_request_headers: None,
            max_controls_per_request: None,
            solicited_buffer_size: BufferSize::max(),
            unsolicited_buffer_size: BufferSize::max(),
        }
    }
}

/// The part of the configuration that a running session consults.
#[derive(Copy, Clone, Debug, PartialEq, Eq, Structural)]
pub struct SessionConfig {
    /// how much of the traffic is logged
    pub decode_level: DecodeLevel,
    /// address of the master
    pub master_address: EndpointAddress,
    /// time to wait for the confirmation of a response
    pub confirm_timeout: Millis,
    /// time within which an operate must follow its select
    pub select_timeout: Millis,
    /// requests by broadcast are carried out
    pub broadcast: Feature,
    /// unsolicited responses are sent
    pub unsolicited: Feature,
    /// number of times an unsolicited response is repeated; `None` for no limit
    pub max_unsolicited_retries: Option<usize>,
    /// time to wait after an unconfirmed unsolicited response before the next
    pub unsolicited_retry_delay: Millis,
    /// time without traffic after which the link is tested; `None` for never
    pub keep_alive_timeout: Option<Millis>,
    /// number of controls carried out per request; `None` for no limit
    pub max_controls_per_request: Option<u16>,
}

/// The part of the configuration that shapes a session when it is made.
#[derive(Copy, Clone, Debug, PartialEq, Eq, Structural)]
pub struct SessionParameters {
    /// number of headers of a read request that can be deferred
    pub max_read_headers_per_request: u16,
    /// size of the buffer for solicited responses
    pub sol_tx_buffer_size: BufferSize,
    /// size of the buffer for unsolicited responses
    pub unsol_tx_buffer_size: BufferSize,
}

impl SessionConfig {
    /// The part of `config` that a running session consults.
    pub open spec fn spec_from(config: OutstationConfig) -> SessionConfig {
        SessionConfig {
            decode_level: config.decode_level,
            master_address: config.master_address,
            confirm_timeout: config.confirm_timeout,
            select_timeout: config.select_timeout,
            broadcast: config.features.broadcast,
            unsolicited: config.features.unsolicited,
            max_unsolicited_retries: config.max_unsolicited_retries,
            unsolicited_retry_delay: config.unsolicited_retry_delay,
            keep_alive_timeout: config.keep_alive_timeout,
            max_controls_per_request: config.max_controls_per_request,
        }
    }

    /// The part of `config` that a running session consults.
    pub fn from(config: OutstationConfig) -> (c: SessionConfig)
        ensures
            c == Self::spec_from(config),
    {
        SessionConfig {
            decode_level: config.decode_level,
            master_address: config.master_address,
            confirm_timeout: config.confirm_timeout,
            select_timeout: config.select_timeout,
            broadcast: config.features.broadcast,
            unsolicited: config.features.unsolicited,
            max_unsolicited_retries: config.max_unsolicited_retries,
            unsolicited_retry_delay: config.unsolicited_retry_delay,
            keep_alive_timeout: config.keep_alive_timeout,
            max_controls_per_request: config.max_controls_per_request,
        }
    }
}

impl SessionParameters {
    /// The part of `config` that shapes a session when it is made.
    pub open spec fn spec_from(config: OutstationConfig) -> SessionParameters {
        SessionParameters {
            max_read_headers_per_request: match config.max_read_request_headers {
                Some(n) => n,
                None => OutstationConfig::DEFAULT_MAX_READ_REQUEST_HEADERS,
            },
            sol_tx_buffer_size: config.solicited_buffer_size,
            unsol_tx_buffer_size: config.unsolicited_buffer_size,
        }
    }

    /// The part of `x` that shapes a session when it is made.
    pub fn from(x: OutstationConfig) -> (p: SessionParameters)
        ensures
            p == Self::spec_from(x),
    {
        SessionParameters {
            max_read_headers_per_request: match x.max_read_request_headers {
                Some(n) => n,
                None => OutstationConfig::DEFAULT_MAX_READ_REQUEST_HEADERS,
            },
            sol_tx_buffer_size: x.solicited_buffer_size,
            unsol_tx_buffer_size: x.unsolicited_buffer_size,
        }
    }
}

} // verus!
