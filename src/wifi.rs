//! The WiFi display worker's decisions. The worker owns one websocket and
//! handles connect, disconnect and image commands one at a time; the network
//! work itself (fetching the display geometry, opening the socket, sending)
//! is done by the caller, which hands back each outcome.
use vstd::prelude::*;

verus! {

/// Connection state shown to the user.
#[derive(Debug, Clone, Copy, PartialEq, Eq, Structural)]
pub enum Status {
    NotConnected,
    Connected,
    ConnectFail,
    Disconnected,
    Connecting,
}

pub open spec fn status_name_spec(s: Status) -> Seq<char> {
    match s {
        Status::NotConnected => "未连接"@,
        Status::Connected => "连接成功"@,
        Status::ConnectFail => "连接失败"@,
        Status::Disconnected => "连接断开"@,
        Status::Connecting => "正在连接"@,
    }
}

impl Status {
    /// The user-facing name of the state.
    pub fn name(&self) -> (r: &'static str)
        ensures
            r@ == status_name_spec(*self),
    {
        match self {
            Status::NotConnected => "未连接",
            Status::Connected => "连接成功",
            Status::ConnectFail => "连接失败",
            Status::Disconnected => "连接断开",
            Status::Connecting => "正在连接",
        }
    }
}

/// The worker's published state and its pacing delay.
#[derive(Debug, Clone)]
pub struct StatusInfo {
    pub ip: Option<String>,
    pub status: Status,
    /// Pause after each sent image, in milliseconds.
    pub delay_ms: u64,
}

/// The delay used after a send when the shared state could not be read.
pub const DEFAULT_DELAY_MS: u64 = 150;
/// The pause before reconnecting after a failure, in milliseconds.
pub const RECONNECT_DELAY_MS: u64 = 3000;

impl StatusInfo {
    pub fn new() -> (r: StatusInfo)
        ensures
            r.ip is None,
            r.status == Status::NotConnected,
            r.delay_ms == DEFAULT_DELAY_MS,
    {
        StatusInfo { ip: None, status: Status::NotConnected, delay_ms: DEFAULT_DELAY_MS }
    }
}

pub fn set_status(info: &mut StatusInfo, ip: Option<String>, status: Status)
    ensures
        final(info).ip == ip,
        final(info).status == status,
        final(info).delay_ms == old(info).delay_ms,
{
    info.status = status;
    info.ip = ip;
}

pub fn set_delay_ms(info: &mut StatusInfo, delay_ms: u64)
    ensures
        final(info).delay_ms == delay_ms,
        final(info).status == old(info).status,
        final(info).ip == old(info).ip,
{
    info.delay_ms = delay_ms;
}

/// A copy of the published state.
pub fn get_status(info: &StatusInfo) -> (r: StatusInfo)
    ensures
        r.ip == info.ip,
        r.status == info.status,
        r.delay_ms == info.delay_ms,
{
    let ip = match &info.ip {
        Some(s) => Some(s.clone()),
        None => None,
    };
    StatusInfo { ip, status: info.status, delay_ms: info.delay_ms }
}

/// The worker's own state between commands.
pub struct WifiWorker {
    /// The address of the display, empty when none is wanted.
    pub screen_ip: String,
    /// The display's size after rotation, once fetched.
    pub display_size: Option<(u32, u32)>,
    pub connected: bool,
    /// Whether a socket is open.
    pub has_socket: bool,
}

/// What to do with one image command.
#[derive(Debug, Clone, PartialEq, Eq)]
pub enum ImagePlan {
    /// Nothing can be sent now.
    Skip,
    /// Resize the image to this size, send it, then pause.
    Send { width: u32, height: u32, delay_ms: u64 },
    /// Close any socket, wait the reconnect delay, then queue a connect to this address.
    Reconnect(String),
}

impl WifiWorker {
    pub fn new() -> (r: WifiWorker)
        ensures
            r.screen_ip@.len() == 0,
            r.display_size is None,
            !r.connected,
            !r.has_socket,
    {
        WifiWorker { screen_ip: String::new(), display_size: None, connected: false, has_socket: false }
    }

    /// A connect command: remember the address, drop any old socket and show
    /// the connecting state. Returns whether an old socket must be closed.
    pub fn connect_requested(&mut self, status: &mut StatusInfo, ip: String) -> (close_old: bool)
        ensures
            close_old == old(self).has_socket,
            final(self).screen_ip == ip,
            !final(self).has_socket,
            !final(self).connected,
            final(self).display_size == old(self).display_size,
            final(status).status == Status::Connecting,
            final(status).ip == Some(ip),
            final(status).delay_ms == old(status).delay_ms,
    {
        let close_old = self.has_socket;
        self.has_socket = false;
        self.connected = false;
        set_status(status, Some(ip.clone()), Status::Connecting);
        self.screen_ip = ip;
        close_old
    }

    /// The outcome of a connect: the fetched geometry, if any, and whether the
    /// socket opened. A failure leaves the worker ready for the next command.
    pub fn connect_finished(&mut self, status: &mut StatusInfo, size: Option<(u32, u32)>, socket_ok: bool)
        ensures
            final(self).connected == socket_ok,
            final(self).has_socket == socket_ok,
            final(self).screen_ip == old(self).screen_ip,
            final(self).display_size == (if size is Some { size } else { old(self).display_size }),
            final(status).status == (if socket_ok { Status::Connected } else { Status::ConnectFail }),
            final(status).ip is None,
            final(status).delay_ms == old(status).delay_ms,
    {
        if size.is_some() {
            self.display_size = size;
        }
        self.connected = socket_ok;
        self.has_socket = socket_ok;
        set_status(status, None, if socket_ok { Status::Connected } else { Status::ConnectFail });
    }

    /// A disconnect command: forget the address and the geometry. Returns
    /// whether a socket must be closed.
    pub fn disconnect(&mut self, status: &mut StatusInfo) -> (close: bool)
        ensures
            close == old(self).has_socket,
            final(self).screen_ip@.len() == 0,
            final(self).display_size is None,
            !final(self).connected,
            !final(self).has_socket,
            final(status).status == Status::Disconnected,
            final(status).ip == old(status).ip,
            final(status).delay_ms == old(status).delay_ms,
    {
        let close = self.has_socket;
        self.screen_ip = String::new();
        self.display_size = None;
        self.connected = false;
        self.has_socket = false;
        status.status = Status::Disconnected;
        close
    }

    /// Whether an image command must first fetch the display geometry.
    pub fn needs_display_size(&self) -> (r: bool)
        ensures
            r == (self.display_size is None),
    {
        self.display_size.is_none()
    }

    /// An image command. `fetched` is the geometry fetched for it (only looked
    /// at when none was known).
    #[verifier::rlimit(60)]
    pub fn plan_image(&mut self, status: &mut StatusInfo, fetched: Option<(u32, u32)>) -> (r: ImagePlan)
        ensures
            final(self).display_size == (if old(self).display_size is Some { old(self).display_size } else { fetched }),
            final(self).screen_ip == old(self).screen_ip,
            final(status).delay_ms == old(status).delay_ms,
            final(self).display_size is None ==> r == (if old(self).screen_ip@.len() > 0 { ImagePlan::Reconnect(old(self).screen_ip) } else { ImagePlan::Skip }),
            final(self).display_size is Some && old(self).connected && old(self).has_socket ==> r == (ImagePlan::Send {
                width: final(self).display_size->Some_0.0,
                height: final(self).display_size->Some_0.1,
                delay_ms: old(status).delay_ms,
            }) && final(status).status == Status::Connected,
            final(self).display_size is Some && old(self).connected && !old(self).has_socket ==> r == ImagePlan::Skip,
            final(self).display_size is Some && !old(self).connected ==> !final(self).has_socket
                && final(status).status == Status::Disconnected && final(status).ip is None
                && r == (if old(self).screen_ip@.len() > 0 { ImagePlan::Reconnect(old(self).screen_ip) } else { ImagePlan::Skip }),
    {
        status.status = if self.connected { Status::Connected } else { Status::Disconnected };
        if self.display_size.is_none() {
            self.display_size = fetched;
        }
        match self.display_size {
            None => {
                if self.screen_ip.unicode_len() > 0 {
                    ImagePlan::Reconnect(self.screen_ip.clone())
                } else {
                    ImagePlan::Skip
                }
            },
            Some((width, height)) => {
                if self.connected {
                    if self.has_socket {
                        ImagePlan::Send { width, height, delay_ms: status.delay_ms }
                    } else {
                        ImagePlan::Skip
                    }
                } else {
                    self.has_socket = false;
                    set_status(status, None, Status::Disconnected);
                    if self.screen_ip.unicode_len() > 0 {
                        ImagePlan::Reconnect(self.screen_ip.clone())
                    } else {
                        ImagePlan::Skip
                    }
                }
            },
        }
    }

    /// The outcome of sending an image. A failed write drops the socket and
    /// shows the disconnected state; the next image schedules the reconnect.
    pub fn image_sent(&mut self, status: &mut StatusInfo, ok: bool)
        ensures
            ok ==> final(self).connected == old(self).connected && final(self).has_socket == old(self).has_socket
                && final(status).status == old(status).status,
            !ok ==> !final(self).connected && !final(self).has_socket && final(status).status == Status::Disconnected,
            final(self).screen_ip == old(self).screen_ip,
            final(self).display_size == old(self).display_size,
            final(status).delay_ms == old(status).delay_ms,
            final(status).ip == old(status).ip,
    {
        if !ok {
            self.connected = false;
            self.has_socket = false;
            status.status = Status::Disconnected;
        }
    }
}

/// The binary message of one WiFi frame: the RGB888 image as big-endian
/// RGB565, in one LZ4 block with its length prepended.
pub fn encode_wifi_image(rgb: &[u8], width: usize, height: usize) -> (r: Vec<u8>)
    requires
        rgb@.len() % 3 == 0,
    ensures
        r@ == crate::protocol::lz4_block(crate::rgb565::rgb565_be_seq(rgb@)),
{
    let pixels = crate::rgb565::rgb888_to_rgb565_be(rgb, width, height);
    crate::protocol::lz4_compress(pixels.as_slice())
}

} // verus!
