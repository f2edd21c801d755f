//! Daemon configuration as read from its file, and the defaults it falls
//! back on.

use vstd::prelude::*;

use crate::port::Port;

verus! {

/// Command-line arguments of the daemon.
#[derive(Debug, PartialEq, Eq)]
pub struct CmdArgs {
    /// Path to the configuration file.
    pub config: String,
}

impl Default for CmdArgs {
    fn default() -> (r: CmdArgs)
        ensures
            r.config@ == "/etc/led_matrix_daemon/config.toml"@,
    {
        CmdArgs { config: String::from_str("/etc/led_matrix_daemon/config.toml") }
    }
}

/// The configuration file's contents. The listen address is kept as text.
#[derive(Debug, PartialEq, Eq)]
pub struct LedMatrixConfigDto {
    pub left_port: Option<PortDto>,
    pub right_port: Option<PortDto>,
    pub listen_address: Option<String>,
    pub unix_socket: Option<String>,
    pub max_queue_size: usize,
    pub num_http_workers: usize,
}

/// Why a configuration cannot start the daemon.
#[derive(Debug, Clone, Copy, PartialEq, Eq, Structural)]
pub enum ConfigError {
    /// Neither a listen address nor a unix socket is set.
    NoListener,
    /// Neither side has a port.
    NoPorts,
}

/// The daemon's configuration: a port for each configured side, where to
/// listen, the render queue's capacity and the number of HTTP workers.
#[derive(Debug)]
pub struct LedMatrixConfig {
    pub left_port: Option<Port>,
    pub right_port: Option<Port>,
    pub listen_address: Option<String>,
    pub unix_socket: Option<String>,
    pub max_queue_size: usize,
    pub num_http_workers: usize,
}

/// `port` is a fresh port with the settings of `dto`.
pub open spec fn port_from(port: Port, dto: PortDto) -> bool {
    &&& port.spec_path() == dto.path@
    &&& port.spec_baud_rate() == dto.baud_rate
    &&& port.spec_timeout_ms() == dto.timeout_ms
    &&& port.spec_keep_open() == dto.keep_open
    &&& port.spec_wait_delay_ms() == dto.wait_delay_ms
    &&& !port.is_connected()
}

/// The side is configured in both or in neither, with the same settings.
pub open spec fn side_from(port: Option<Port>, dto: Option<PortDto>) -> bool {
    match (port, dto) {
        (Some(p), Some(d)) => port_from(p, d),
        (None, None) => true,
        _ => false,
    }
}

fn port_of(dto: Option<PortDto>) -> (r: Option<Port>)
    ensures
        side_from(r, dto),
{
    match dto {
        Some(d) => Some(Port::try_from(d)),
        None => None,
    }
}

impl LedMatrixConfig {
    /// The configuration that `value` describes; it needs somewhere to listen
    /// and at least one side.
    pub fn try_from(value: LedMatrixConfigDto) -> (r: Result<LedMatrixConfig, ConfigError>)
        ensures
            value.listen_address is None && value.unix_socket is None ==> r == Err::<
                LedMatrixConfig,
                ConfigError,
            >(ConfigError::NoListener),
            (value.listen_address is Some || value.unix_socket is Some) && value.left_port is None
                && value.right_port is None ==> r == Err::<LedMatrixConfig, ConfigError>(
                ConfigError::NoPorts,
            ),
            r matches Ok(c) ==> {
                &&& side_from(c.left_port, value.left_port)
                &&& side_from(c.right_port, value.right_port)
                &&& c.listen_address == value.listen_address
                &&& c.unix_socket == value.unix_socket
                &&& c.max_queue_size == value.max_queue_size
                &&& c.num_http_workers == value.num_http_workers
            },
            r is Ok <==> (value.listen_address is Some || value.unix_socket is Some) && (
            value.left_port is Some || value.right_port is Some),
    {
        if value.listen_address.is_none() && value.unix_socket.is_none() {
            return Err(ConfigError::NoListener);
        }
        if value.left_port.is_none() && value.right_port.is_none() {
            return Err(ConfigError::NoPorts);
        }
        Ok(LedMatrixConfig {
            left_port: port_of(value.left_port),
            right_port: port_of(value.right_port),
            listen_address: value.listen_address,
            unix_socket: value.unix_socket,
            max_queue_size: value.max_queue_size,
            num_http_workers: value.num_http_workers,
        })
    }
}

/// Settings of one side's serial port. Durations are in milliseconds.
#[derive(Debug, PartialEq, Eq)]
pub struct PortDto {
    pub path: String,
    pub baud_rate: u32,
    pub timeout_ms: u64,
    pub wait_delay_ms: Option<u64>,
    pub keep_open: bool,
}

/// Default of the keep-open flag.
pub fn yes() -> (r: bool)
    ensures
        r,
{
    true
}

/// Default baud rate of a port.
pub fn default_baud_rate() -> (r: u32)
    ensures
        r == 115200,
{
    115200
}

/// Default I/O timeout of a port, in milliseconds.
pub fn default_timeout() -> (r: u64)
    ensures
        r == 2000,
{
    2000
}

/// Default number of HTTP workers.
pub fn default_http_workers() -> (r: usize)
    ensures
        r == 1,
{
    1
}

/// Default capacity of the render queue.
pub fn default_max_queue_size() -> (r: usize)
    ensures
        r == 1,
{
    1
}

} // verus!
