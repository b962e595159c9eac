//! The configuration snapshot taken at startup. It never changes afterwards
//! and is shared read-only; the tunnel's mutable state lives apart from it,
//! in the tunnel controller.
use vstd::prelude::*;

verus! {

pub const DEFAULT_CAMERA_WIDTH: u32 = 640;

pub const DEFAULT_CAMERA_HEIGHT: u32 = 480;

pub const DEFAULT_CAMERA_DEV_IDX: u8 = 0;

/// Frame interval as a fraction of a second: one frame every 1/30 s.
pub const DEFAULT_INTERVAL_NUMERATOR: u32 = 1;

pub const DEFAULT_INTERVAL_DENOMINATOR: u32 = 30;

/// Number of capture buffers the camera driver is asked for.
pub const BUF_COUNT: u32 = 20;

/// Time between two frames, as a fraction of a second.
#[derive(Debug, Default, Clone, Copy, PartialEq, Eq, Structural)]
pub struct FrameInterval {
    pub numerator: u32,
    pub denominator: u32,
}

#[derive(Debug, Default, Clone, Copy)]
pub struct CameraConfig {
    pub interval: FrameInterval,
    pub width: u32,
    pub height: u32,
    pub fourcc: [u8; 4],
    pub buf_size: u32,
    pub dev_idx: u8,
}

/// The four-character code of Motion JPEG.
pub open spec fn mjpg() -> Seq<u8> {
    seq![77u8, 74u8, 80u8, 71u8]
}

pub open spec fn or_default<T>(value: Option<T>, default: T) -> T {
    match value {
        Some(v) => v,
        None => default,
    }
}

impl CameraConfig {
    /// A Motion JPEG camera configuration; a setting that was not given
    /// takes its default.
    pub fn from_settings(width: Option<u32>, height: Option<u32>, dev_idx: Option<u8>) -> (r:
        CameraConfig)
        ensures
            r.width == or_default(width, DEFAULT_CAMERA_WIDTH),
            r.height == or_default(height, DEFAULT_CAMERA_HEIGHT),
            r.dev_idx == or_default(dev_idx, DEFAULT_CAMERA_DEV_IDX),
            r.interval == (FrameInterval {
                numerator: DEFAULT_INTERVAL_NUMERATOR,
                denominator: DEFAULT_INTERVAL_DENOMINATOR,
            }),
            r.fourcc@ == mjpg(),
            r.buf_size == BUF_COUNT,
    {
        let fourcc: [u8; 4] = [77u8, 74u8, 80u8, 71u8];
        assert(fourcc@ =~= mjpg());
        CameraConfig {
            interval: FrameInterval {
                numerator: DEFAULT_INTERVAL_NUMERATOR,
                denominator: DEFAULT_INTERVAL_DENOMINATOR,
            },
            width: match width {
                Some(w) => w,
                None => DEFAULT_CAMERA_WIDTH,
            },
            height: match height {
                Some(h) => h,
                None => DEFAULT_CAMERA_HEIGHT,
            },
            fourcc,
            buf_size: BUF_COUNT,
            dev_idx: match dev_idx {
                Some(d) => d,
                None => DEFAULT_CAMERA_DEV_IDX,
            },
        }
    }
}

#[derive(Debug, Default, Clone)]
pub struct TelegramConfig {
    pub token: String,
    pub admin_user_id: i64,
    pub allowed_user_ids: Vec<i64>,
}

impl TelegramConfig {
    /// The chat settings; the administrator is always among the allowed
    /// users, after the ones listed.
    pub fn new(token: String, admin_user_id: i64, allowed_user_ids: Vec<i64>) -> (r: TelegramConfig)
        ensures
            r.token == token,
            r.admin_user_id == admin_user_id,
            r.allowed_user_ids@ == allowed_user_ids@.push(admin_user_id),
    {
        let mut allowed_user_ids = allowed_user_ids;
        allowed_user_ids.push(admin_user_id);
        TelegramConfig { token, admin_user_id, allowed_user_ids }
    }

    pub fn is_allowed(&self, user_id: i64) -> (r: bool)
        ensures
            r == self.allowed_user_ids@.contains(user_id),
    {
        let mut i: usize = 0;
        while i < self.allowed_user_ids.len()
            invariant
                0 <= i <= self.allowed_user_ids@.len(),
                forall|j: int| 0 <= j < i ==> self.allowed_user_ids@[j] != user_id,
            decreases self.allowed_user_ids@.len() - i,
        {
            if self.allowed_user_ids[i] == user_id {
                return true;
            }
            i += 1;
        }
        false
    }
}

/// What the web page needs: the address of the frame socket.
#[derive(Debug, Clone)]
pub struct ServerState {
    pub ws_path: String,
}

/// The configuration snapshot of the whole service.
#[derive(Debug, Default, Clone)]
pub struct Variables {
    pub camera_config: CameraConfig,
    pub ngrok_auth_token: String,
    pub ngrok_domain: String,
    pub server_address: String,
    pub telegram_config: TelegramConfig,
}

} // verus!
