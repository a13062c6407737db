//! Client settings: the camera key bindings, and the checks of the window
//! size and the server address read from the settings file.
use vstd::prelude::*;

verus! {

/// A key that a camera control may be bound to.
#[derive(Debug, Clone, Copy, PartialEq, Eq, Structural)]
pub enum CameraKey {
    W,
    A,
    S,
    D,
    Q,
    E,
    F,
    Up,
    Down,
    Left,
    Right,
    Minus,
    Equal,
}

/// The keys of the camera controls.
#[derive(Debug, Clone, Copy, PartialEq, Eq, Structural)]
pub struct CameraBindingsSettings {
    pub pan_up: CameraKey,
    pub pan_down: CameraKey,
    pub pan_left: CameraKey,
    pub pan_right: CameraKey,
    pub zoom_in: CameraKey,
    pub zoom_out: CameraKey,
    pub reset: CameraKey,
}

/// The default bindings: W, S, A, D to pan, E and Q to zoom, F to reset.
pub open spec fn default_bindings() -> CameraBindingsSettings {
    CameraBindingsSettings {
        pan_up: CameraKey::W,
        pan_down: CameraKey::S,
        pan_left: CameraKey::A,
        pan_right: CameraKey::D,
        zoom_in: CameraKey::E,
        zoom_out: CameraKey::Q,
        reset: CameraKey::F,
    }
}

impl Default for CameraBindingsSettings {
    fn default() -> (bindings: Self)
        ensures
            bindings == default_bindings(),
    {
        CameraBindingsSettings {
            pan_up: CameraKey::W,
            pan_down: CameraKey::S,
            pan_left: CameraKey::A,
            pan_right: CameraKey::D,
            zoom_in: CameraKey::E,
            zoom_out: CameraKey::Q,
            reset: CameraKey::F,
        }
    }
}

/// The default bindings give every control its own key.
pub proof fn law_default_bindings_are_distinct()
    ensures
        ({
            let b = default_bindings();
            let keys = seq![b.pan_up, b.pan_down, b.pan_left, b.pan_right, b.zoom_in, b.zoom_out, b.reset];
            forall|i: int, j: int| 0 <= i < keys.len() && 0 <= j < keys.len() && i != j ==> keys[i] != keys[j]
        }),
{
}

/// The default window width.
pub const DEFAULT_WINDOW_WIDTH: u32 = 1280;

/// The default window height.
pub const DEFAULT_WINDOW_HEIGHT: u32 = 800;

/// Why the settings file was refused: which field is out of range.
pub open spec fn window_error(width: u32, height: u32) -> Option<Seq<char>> {
    if !(640 <= width <= 7680) {
        Some("window_width must be between 640 and 7680"@)
    } else if !(480 <= height <= 4320) {
        Some("window_height must be between 480 and 4320"@)
    } else {
        None
    }
}

/// Checks the window size of the settings.
pub fn validate_window(width: u32, height: u32) -> (result: Result<(), &'static str>)
    ensures
        match window_error(width, height) {
            Some(m) => result is Err && result->Err_0@ == m,
            None => result is Ok,
        },
{
    if !(640 <= width && width <= 7680) {
        return Err("window_width must be between 640 and 7680");
    }
    if !(480 <= height && height <= 4320) {
        return Err("window_height must be between 480 and 4320");
    }
    Ok(())
}

/// Whether `s` begins with `prefix`.
pub open spec fn begins_with(s: Seq<char>, prefix: Seq<char>) -> bool {
    prefix.len() <= s.len() && s.subrange(0, prefix.len() as int) == prefix
}

fn starts_with(s: &str, prefix: &str) -> (result: bool)
    ensures
        result == begins_with(s@, prefix@),
{
    let n = prefix.unicode_len();
    if n > s.unicode_len() {
        return false;
    }
    let mut i: usize = 0;
    while i < n
        invariant
            i <= n == prefix@.len() <= s@.len(),
            forall|j: int| 0 <= j < i ==> s@[j] == prefix@[j],
        decreases n - i,
    {
        if s.get_char(i) != prefix.get_char(i) {
            assert(s@.subrange(0, n as int)[i as int] != prefix@[i as int]);
            return false;
        }
        i = i + 1;
    }
    assert(s@.subrange(0, n as int) =~= prefix@);
    true
}

/// Checks the server address of the settings: it must begin with `ws://` or
/// `wss://`.
pub fn validate_server_url(server_url: &str) -> (result: Result<(), &'static str>)
    ensures
        result is Ok <==> (begins_with(server_url@, "ws://"@) || begins_with(
            server_url@,
            "wss://"@,
        )),
        result is Err ==> result->Err_0@ == "server_url must begin with ws:// or wss://"@,
{
    if starts_with(server_url, "ws://") || starts_with(server_url, "wss://") {
        Ok(())
    } else {
        Err("server_url must begin with ws:// or wss://")
    }
}

} // verus!
