use vstd::prelude::*;
use vstd::string::StringExecFns;
use crate::math::Point;

verus! {

/// Named key and mouse-button codes, as delivered by the windowing layer.
pub struct KeyCode;

/// The display name of a key or mouse-button code; `"UNKOWN"` for codes without a name.
pub open spec fn key_name(keycode: i32) -> Seq<char> {
    if keycode == 8 {
        "BACK"@
    } else if keycode == 13 {
        "ENTER"@
    } else if keycode == 16 {
        "SHIFT"@
    } else if keycode == 27 {
        "ESCAPE"@
    } else if keycode == 32 {
        "SPACE"@
    } else if keycode == 104 {
        "H"@
    } else if keycode == 115 {
        "S"@
    } else if keycode == 100 {
        "D"@
    } else if keycode == 1073741904 {
        "LEFT"@
    } else if keycode == 1073741906 {
        "UP"@
    } else if keycode == 1073741903 {
        "RIGHT"@
    } else if keycode == 1073741905 {
        "DOWN"@
    } else if keycode == 1 {
        "LMB"@
    } else if keycode == 3 {
        "RMB"@
    } else {
        "UNKOWN"@
    }
}

impl KeyCode {
    pub const KEY_H: i32 = 104;
    pub const KEY_S: i32 = 115;
    pub const KEY_D: i32 = 100;

    pub const BACK: i32 = 8;
    pub const ENTER: i32 = 13;
    pub const SHIFT: i32 = 16;
    pub const ESCAPE: i32 = 27;
    pub const SPACE: i32 = 32;

    pub const LEFT: i32 = 1073741904;
    pub const UP: i32 = 1073741906;
    pub const RIGHT: i32 = 1073741903;
    pub const DOWN: i32 = 1073741905;

    pub const LMB: i32 = 1;
    pub const RMB: i32 = 3;

    /// The display name of `keycode`.
    pub fn key_name_of(keycode: i32) -> (name: &'static str)
        ensures
            name@ == key_name(keycode),
    {
        match keycode {
            8 => "BACK",
            13 => "ENTER",
            16 => "SHIFT",
            27 => "ESCAPE",
            32 => "SPACE",
            104 => "H",
            115 => "S",
            100 => "D",
            1073741904 => "LEFT",
            1073741906 => "UP",
            1073741903 => "RIGHT",
            1073741905 => "DOWN",
            1 => "LMB",
            3 => "RMB",
            _ => "UNKOWN",
        }
    }
}

/// A recoverable runtime error of the engine, carrying its message.
#[derive(Debug)]
pub struct RuntimeException(pub String);

impl RuntimeException {
    /// An exception with the message `msg`.
    pub fn new(msg: &str) -> (e: Self)
        ensures
            e.0@ == msg@,
    {
        RuntimeException(String::from_str(msg))
    }
}

/// Conversion of an `Option` into an engine `Result`.
pub trait IntoResult<T> {
    /// `Ok(())` when a value is present, else an exception with message `msg`.
    fn into_result(&self, msg: &'static str) -> Result<(), RuntimeException>;

    /// `Ok(())` when a value is present, else an exception with message `msg`.
    fn into_result_string(&self, msg: String) -> Result<(), RuntimeException>;

    /// A clone of the value when present, else an exception with message `msg`.
    fn into_result_value(&self, msg: String) -> Result<T, RuntimeException>;
}

impl<T: Clone> IntoResult<T> for Option<T> {
    fn into_result(&self, msg: &'static str) -> (r: Result<(), RuntimeException>)
        ensures
            self is Some <==> r is Ok,
            r matches Err(e) ==> e.0@ == msg@,
    {
        if self.is_some() {
            Ok(())
        } else {
            Err(RuntimeException(String::from_str(msg)))
        }
    }

    fn into_result_string(&self, msg: String) -> (r: Result<(), RuntimeException>)
        ensures
            self is Some <==> r is Ok,
            r matches Err(e) ==> e.0 == msg,
    {
        if self.is_some() {
            Ok(())
        } else {
            Err(RuntimeException(msg))
        }
    }

    fn into_result_value(&self, msg: String) -> (r: Result<T, RuntimeException>)
        ensures
            self is Some <==> r is Ok,
            r matches Ok(v) ==> cloned(self->0, v),
            r matches Err(e) ==> e.0 == msg,
    {
        if let Some(value) = self {
            Ok(value.clone())
        } else {
            Err(RuntimeException(msg))
        }
    }
}

/// An RGBA color.
#[derive(Debug, Clone, Copy, PartialEq, Eq, PartialOrd, Ord, Structural)]
pub struct Color(pub u8, pub u8, pub u8, pub u8);

impl Color {
    pub fn black() -> (c: Self)
        ensures
            c == Color(0, 0, 0, 255),
    {
        Color(0, 0, 0, 255)
    }

    pub fn white() -> (c: Self)
        ensures
            c == Color(255, 255, 255, 255),
    {
        Color(255, 255, 255, 255)
    }

    pub fn red() -> (c: Self)
        ensures
            c == Color(255, 0, 0, 255),
    {
        Color(255, 0, 0, 255)
    }

    pub fn green() -> (c: Self)
        ensures
            c == Color(0, 255, 0, 255),
    {
        Color(0, 255, 0, 255)
    }

    pub fn blue() -> (c: Self)
        ensures
            c == Color(0, 0, 255, 255),
    {
        Color(0, 0, 255, 255)
    }

    pub fn yellow() -> (c: Self)
        ensures
            c == Color(255, 255, 0, 255),
    {
        Color(255, 255, 0, 255)
    }

    pub fn cyan() -> (c: Self)
        ensures
            c == Color(0, 255, 255, 255),
    {
        Color(0, 255, 255, 255)
    }

    pub fn magenta() -> (c: Self)
        ensures
            c == Color(255, 0, 255, 255),
    {
        Color(255, 0, 255, 255)
    }

    pub fn gray() -> (c: Self)
        ensures
            c == Color(128, 128, 128, 255),
    {
        Color(128, 128, 128, 255)
    }

    pub fn orange() -> (c: Self)
        ensures
            c == Color(255, 165, 0, 255),
    {
        Color(255, 165, 0, 255)
    }

    /// The color with channels `r`, `g`, `b` and alpha `a`.
    pub fn new(r: u8, g: u8, b: u8, a: u8) -> (c: Self)
        ensures
            c == Color(r, g, b, a),
    {
        Color(r, g, b, a)
    }
}

/// Conversion of a coordinate pair into a [Point].
pub trait ToPoint {
    fn to_point(&self) -> Point;
}

impl ToPoint for (i32, i32) {
    fn to_point(&self) -> (p: Point)
        ensures
            p == Point(self.0, self.1),
    {
        Point(self.0, self.1)
    }
}

} // verus!
