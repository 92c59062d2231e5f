//! The keys of a keyboard and the names that a web page gives them.

use vstd::prelude::*;

verus! {

/// A key, named by what it stands for and not by where it sits.
#[derive(Clone, Copy, Debug, PartialEq, Eq, Structural)]
pub enum KeyCode {
    Key1,
    Key2,
    Key3,
    Key4,
    Key5,
    Key6,
    Key7,
    Key8,
    Key9,
    Key0,
    A,
    B,
    C,
    D,
    E,
    F,
    G,
    H,
    I,
    J,
    K,
    L,
    M,
    N,
    O,
    P,
    Q,
    R,
    S,
    T,
    U,
    V,
    W,
    X,
    Y,
    Z,
    Escape,
    F1,
    F2,
    F3,
    F4,
    F5,
    F6,
    F7,
    F8,
    F9,
    F10,
    F11,
    F12,
    F13,
    F14,
    F15,
    F16,
    F17,
    F18,
    F19,
    F20,
    F21,
    F22,
    F23,
    F24,
    Snapshot,
    Scroll,
    Pause,
    Insert,
    Home,
    Delete,
    End,
    PageDown,
    PageUp,
    Left,
    Up,
    Right,
    Down,
    Back,
    Return,
    Space,
    Compose,
    Caret,
    Numlock,
    Numpad0,
    Numpad1,
    Numpad2,
    Numpad3,
    Numpad4,
    Numpad5,
    Numpad6,
    Numpad7,
    Numpad8,
    Numpad9,
    AbntC1,
    AbntC2,
    NumpadAdd,
    Apostrophe,
    Apps,
    At,
    Ax,
    Backslash,
    Calculator,
    Capital,
    Semicolon,
    Comma,
    Convert,
    NumpadDecimal,
    NumpadDivide,
    Equals,
    Grave,
    Kana,
    Kanji,
    LAlt,
    LBracket,
    LControl,
    LShift,
    LWin,
    Mail,
    MediaSelect,
    MediaStop,
    Minus,
    NumpadMultiply,
    Mute,
    MyComputer,
    NavigateForward,
    NavigateBackward,
    NextTrack,
    NoConvert,
    NumpadComma,
    NumpadEnter,
    NumpadEquals,
    OEM102,
    Period,
    PlayPause,
    Power,
    PrevTrack,
    RAlt,
    RBracket,
    RControl,
    RShift,
    RWin,
    Slash,
    Sleep,
    Stop,
    NumpadSubtract,
    Sysrq,
    Tab,
    Underline,
    Unlabeled,
    VolumeDown,
    VolumeUp,
    Wake,
    WebBack,
    WebFavorites,
    WebForward,
    WebHome,
    WebRefresh,
    WebSearch,
    WebStop,
    Yen,
}

/// The digits of the top row.
pub open spec fn digit_key_named(name: Seq<char>) -> Option<KeyCode> {
    if name == "Digit1"@ {
        Some(KeyCode::Key1)
    } else if name == "Digit2"@ {
        Some(KeyCode::Key2)
    } else if name == "Digit3"@ {
        Some(KeyCode::Key3)
    } else if name == "Digit4"@ {
        Some(KeyCode::Key4)
    } else if name == "Digit5"@ {
        Some(KeyCode::Key5)
    } else if name == "Digit6"@ {
        Some(KeyCode::Key6)
    } else if name == "Digit7"@ {
        Some(KeyCode::Key7)
    } else if name == "Digit8"@ {
        Some(KeyCode::Key8)
    } else if name == "Digit9"@ {
        Some(KeyCode::Key9)
    } else if name == "Digit0"@ {
        Some(KeyCode::Key0)
    } else {
        None
    }
}

/// The letters.
pub open spec fn letter_key_named(name: Seq<char>) -> Option<KeyCode> {
    if name == "KeyA"@ {
        Some(KeyCode::A)
    } else if name == "KeyB"@ {
        Some(KeyCode::B)
    } else if name == "KeyC"@ {
        Some(KeyCode::C)
    } else if name == "KeyD"@ {
        Some(KeyCode::D)
    } else if name == "KeyE"@ {
        Some(KeyCode::E)
    } else if name == "KeyF"@ {
        Some(KeyCode::F)
    } else if name == "KeyG"@ {
        Some(KeyCode::G)
    } else if name == "KeyH"@ {
        Some(KeyCode::H)
    } else if name == "KeyI"@ {
        Some(KeyCode::I)
    } else if name == "KeyJ"@ {
        Some(KeyCode::J)
    } else if name == "KeyK"@ {
        Some(KeyCode::K)
    } else if name == "KeyL"@ {
        Some(KeyCode::L)
    } else if name == "KeyM"@ {
        Some(KeyCode::M)
    } else if name == "KeyN"@ {
        Some(KeyCode::N)
    } else if name == "KeyO"@ {
        Some(KeyCode::O)
    } else if name == "KeyP"@ {
        Some(KeyCode::P)
    } else if name == "KeyQ"@ {
        Some(KeyCode::Q)
    } else if name == "KeyR"@ {
        Some(KeyCode::R)
    } else if name == "KeyS"@ {
        Some(KeyCode::S)
    } else if name == "KeyT"@ {
        Some(KeyCode::T)
    } else if name == "KeyU"@ {
        Some(KeyCode::U)
    } else if name == "KeyV"@ {
        Some(KeyCode::V)
    } else if name == "KeyW"@ {
        Some(KeyCode::W)
    } else if name == "KeyX"@ {
        Some(KeyCode::X)
    } else if name == "KeyY"@ {
        Some(KeyCode::Y)
    } else if name == "KeyZ"@ {
        Some(KeyCode::Z)
    } else {
        None
    }
}

/// Escape and the function keys.
pub open spec fn function_key_named(name: Seq<char>) -> Option<KeyCode> {
    if name == "Escape"@ {
        Some(KeyCode::Escape)
    } else if name == "F1"@ {
        Some(KeyCode::F1)
    } else if name == "F2"@ {
        Some(KeyCode::F2)
    } else if name == "F3"@ {
        Some(KeyCode::F3)
    } else if name == "F4"@ {
        Some(KeyCode::F4)
    } else if name == "F5"@ {
        Some(KeyCode::F5)
    } else if name == "F6"@ {
        Some(KeyCode::F6)
    } else if name == "F7"@ {
        Some(KeyCode::F7)
    } else if name == "F8"@ {
        Some(KeyCode::F8)
    } else if name == "F9"@ {
        Some(KeyCode::F9)
    } else if name == "F10"@ {
        Some(KeyCode::F10)
    } else if name == "F11"@ {
        Some(KeyCode::F11)
    } else if name == "F12"@ {
        Some(KeyCode::F12)
    } else if name == "F13"@ {
        Some(KeyCode::F13)
    } else if name == "F14"@ {
        Some(KeyCode::F14)
    } else if name == "F15"@ {
        Some(KeyCode::F15)
    } else if name == "F16"@ {
        Some(KeyCode::F16)
    } else if name == "F17"@ {
        Some(KeyCode::F17)
    } else if name == "F18"@ {
        Some(KeyCode::F18)
    } else if name == "F19"@ {
        Some(KeyCode::F19)
    } else if name == "F20"@ {
        Some(KeyCode::F20)
    } else if name == "F21"@ {
        Some(KeyCode::F21)
    } else if name == "F22"@ {
        Some(KeyCode::F22)
    } else if name == "F23"@ {
        Some(KeyCode::F23)
    } else if name == "F24"@ {
        Some(KeyCode::F24)
    } else {
        None
    }
}

/// The keys that move the cursor or edit text.
pub open spec fn editing_key_named(name: Seq<char>) -> Option<KeyCode> {
    if name == "PrintScreen"@ {
        Some(KeyCode::Snapshot)
    } else if name == "ScrollLock"@ {
        Some(KeyCode::Scroll)
    } else if name == "Pause"@ {
        Some(KeyCode::Pause)
    } else if name == "Insert"@ {
        Some(KeyCode::Insert)
    } else if name == "Home"@ {
        Some(KeyCode::Home)
    } else if name == "Delete"@ {
        Some(KeyCode::Delete)
    } else if name == "End"@ {
        Some(KeyCode::End)
    } else if name == "PageDown"@ {
        Some(KeyCode::PageDown)
    } else if name == "PageUp"@ {
        Some(KeyCode::PageUp)
    } else if name == "ArrowLeft"@ {
        Some(KeyCode::Left)
    } else if name == "ArrowUp"@ {
        Some(KeyCode::Up)
    } else if name == "ArrowRight"@ {
        Some(KeyCode::Right)
    } else if name == "ArrowDown"@ {
        Some(KeyCode::Down)
    } else if name == "Backspace"@ {
        Some(KeyCode::Back)
    } else if name == "Enter"@ {
        Some(KeyCode::Return)
    } else if name == "Space"@ {
        Some(KeyCode::Space)
    } else if name == "Compose"@ {
        Some(KeyCode::Compose)
    } else if name == "Caret"@ {
        Some(KeyCode::Caret)
    } else {
        None
    }
}

/// The number pad.
pub open spec fn keypad_key_named(name: Seq<char>) -> Option<KeyCode> {
    if name == "NumLock"@ {
        Some(KeyCode::Numlock)
    } else if name == "Numpad0"@ {
        Some(KeyCode::Numpad0)
    } else if name == "Numpad1"@ {
        Some(KeyCode::Numpad1)
    } else if name == "Numpad2"@ {
        Some(KeyCode::Numpad2)
    } else if name == "Numpad3"@ {
        Some(KeyCode::Numpad3)
    } else if name == "Numpad4"@ {
        Some(KeyCode::Numpad4)
    } else if name == "Numpad5"@ {
        Some(KeyCode::Numpad5)
    } else if name == "Numpad6"@ {
        Some(KeyCode::Numpad6)
    } else if name == "Numpad7"@ {
        Some(KeyCode::Numpad7)
    } else if name == "Numpad8"@ {
        Some(KeyCode::Numpad8)
    } else if name == "Numpad9"@ {
        Some(KeyCode::Numpad9)
    } else if name == "AbntC1"@ {
        Some(KeyCode::AbntC1)
    } else if name == "AbntC2"@ {
        Some(KeyCode::AbntC2)
    } else if name == "NumpadAdd"@ {
        Some(KeyCode::NumpadAdd)
    } else {
        None
    }
}

/// The remaining keys from `Apostrophe` to `MyComputer`.
pub open spec fn first_half_key_named(name: Seq<char>) -> Option<KeyCode> {
    if name == "Quote"@ {
        Some(KeyCode::Apostrophe)
    } else if name == "Apps"@ {
        Some(KeyCode::Apps)
    } else if name == "At"@ {
        Some(KeyCode::At)
    } else if name == "Ax"@ {
        Some(KeyCode::Ax)
    } else if name == "Backslash"@ {
        Some(KeyCode::Backslash)
    } else if name == "Calculator"@ {
        Some(KeyCode::Calculator)
    } else if name == "Capital"@ {
        Some(KeyCode::Capital)
    } else if name == "Semicolon"@ {
        Some(KeyCode::Semicolon)
    } else if name == "Comma"@ {
        Some(KeyCode::Comma)
    } else if name == "Convert"@ {
        Some(KeyCode::Convert)
    } else if name == "NumpadDecimal"@ {
        Some(KeyCode::NumpadDecimal)
    } else if name == "NumpadDivide"@ {
        Some(KeyCode::NumpadDivide)
    } else if name == "Equal"@ {
        Some(KeyCode::Equals)
    } else if name == "Backquote"@ {
        Some(KeyCode::Grave)
    } else if name == "Kana"@ {
        Some(KeyCode::Kana)
    } else if name == "Kanji"@ {
        Some(KeyCode::Kanji)
    } else if name == "AltLeft"@ {
        Some(KeyCode::LAlt)
    } else if name == "BracketLeft"@ {
        Some(KeyCode::LBracket)
    } else if name == "ControlLeft"@ {
        Some(KeyCode::LControl)
    } else if name == "ShiftLeft"@ {
        Some(KeyCode::LShift)
    } else if name == "MetaLeft"@ {
        Some(KeyCode::LWin)
    } else if name == "Mail"@ {
        Some(KeyCode::Mail)
    } else if name == "MediaSelect"@ {
        Some(KeyCode::MediaSelect)
    } else if name == "MediaStop"@ {
        Some(KeyCode::MediaStop)
    } else if name == "Minus"@ {
        Some(KeyCode::Minus)
    } else if name == "NumpadMultiply"@ {
        Some(KeyCode::NumpadMultiply)
    } else if name == "Mute"@ {
        Some(KeyCode::Mute)
    } else if name == "LaunchMyComputer"@ {
        Some(KeyCode::MyComputer)
    } else {
        None
    }
}

/// The remaining keys from `NavigateForward` to `Yen`.
pub open spec fn second_half_key_named(name: Seq<char>) -> Option<KeyCode> {
    if name == "NavigateForward"@ {
        Some(KeyCode::NavigateForward)
    } else if name == "NavigateBackward"@ {
        Some(KeyCode::NavigateBackward)
    } else if name == "NextTrack"@ {
        Some(KeyCode::NextTrack)
    } else if name == "NoConvert"@ {
        Some(KeyCode::NoConvert)
    } else if name == "NumpadComma"@ {
        Some(KeyCode::NumpadComma)
    } else if name == "NumpadEnter"@ {
        Some(KeyCode::NumpadEnter)
    } else if name == "NumpadEquals"@ {
        Some(KeyCode::NumpadEquals)
    } else if name == "OEM102"@ {
        Some(KeyCode::OEM102)
    } else if name == "Period"@ {
        Some(KeyCode::Period)
    } else if name == "PlayPause"@ {
        Some(KeyCode::PlayPause)
    } else if name == "Power"@ {
        Some(KeyCode::Power)
    } else if name == "PrevTrack"@ {
        Some(KeyCode::PrevTrack)
    } else if name == "AltRight"@ {
        Some(KeyCode::RAlt)
    } else if name == "BracketRight"@ {
        Some(KeyCode::RBracket)
    } else if name == "ControlRight"@ {
        Some(KeyCode::RControl)
    } else if name == "ShiftRight"@ {
        Some(KeyCode::RShift)
    } else if name == "MetaRight"@ {
        Some(KeyCode::RWin)
    } else if name == "Slash"@ {
        Some(KeyCode::Slash)
    } else if name == "Sleep"@ {
        Some(KeyCode::Sleep)
    } else if name == "Stop"@ {
        Some(KeyCode::Stop)
    } else if name == "NumpadSubtract"@ {
        Some(KeyCode::NumpadSubtract)
    } else if name == "Sysrq"@ {
        Some(KeyCode::Sysrq)
    } else if name == "Tab"@ {
        Some(KeyCode::Tab)
    } else if name == "Underline"@ {
        Some(KeyCode::Underline)
    } else if name == "Unlabeled"@ {
        Some(KeyCode::Unlabeled)
    } else if name == "AudioVolumeDown"@ {
        Some(KeyCode::VolumeDown)
    } else if name == "AudioVolumeUp"@ {
        Some(KeyCode::VolumeUp)
    } else if name == "Wake"@ {
        Some(KeyCode::Wake)
    } else if name == "WebBack"@ {
        Some(KeyCode::WebBack)
    } else if name == "WebFavorites"@ {
        Some(KeyCode::WebFavorites)
    } else if name == "WebForward"@ {
        Some(KeyCode::WebForward)
    } else if name == "WebHome"@ {
        Some(KeyCode::WebHome)
    } else if name == "WebRefresh"@ {
        Some(KeyCode::WebRefresh)
    } else if name == "WebSearch"@ {
        Some(KeyCode::WebSearch)
    } else if name == "WebStop"@ {
        Some(KeyCode::WebStop)
    } else if name == "Yen"@ {
        Some(KeyCode::Yen)
    } else {
        None
    }
}

/// `first` where it names a key, else `second`.
pub open spec fn first_key(first: Option<KeyCode>, second: Option<KeyCode>) -> Option<KeyCode> {
    if first is Some {
        first
    } else {
        second
    }
}

/// The key that the code `name` of a keyboard event stands for, if it is one
/// that this library knows.
pub open spec fn key_code_named(name: Seq<char>) -> Option<KeyCode> {
    first_key(
        digit_key_named(name),
        first_key(
            letter_key_named(name),
            first_key(
                function_key_named(name),
                first_key(
                    editing_key_named(name),
                    first_key(
                        keypad_key_named(name),
                        first_key(first_half_key_named(name), second_half_key_named(name)),
                    ),
                ),
            ),
        ),
    )
}

/// `str::eq`, the `==` of `str`: whether the two texts are the same sequence
/// of characters.
#[verifier::external_body]
fn same_text(a: &str, b: &str) -> (r: bool)
    ensures
        r == (a@ == b@),
{
    a == b
}

fn find_digit_key(name: &str) -> (r: Option<KeyCode>)
    ensures
        r == digit_key_named(name@),
{
    if same_text(name, "Digit1") {
        Some(KeyCode::Key1)
    } else if same_text(name, "Digit2") {
        Some(KeyCode::Key2)
    } else if same_text(name, "Digit3") {
        Some(KeyCode::Key3)
    } else if same_text(name, "Digit4") {
        Some(KeyCode::Key4)
    } else if same_text(name, "Digit5") {
        Some(KeyCode::Key5)
    } else if same_text(name, "Digit6") {
        Some(KeyCode::Key6)
    } else if same_text(name, "Digit7") {
        Some(KeyCode::Key7)
    } else if same_text(name, "Digit8") {
        Some(KeyCode::Key8)
    } else if same_text(name, "Digit9") {
        Some(KeyCode::Key9)
    } else if same_text(name, "Digit0") {
        Some(KeyCode::Key0)
    } else {
        None
    }
}

fn find_letter_key(name: &str) -> (r: Option<KeyCode>)
    ensures
        r == letter_key_named(name@),
{
    if same_text(name, "KeyA") {
        Some(KeyCode::A)
    } else if same_text(name, "KeyB") {
        Some(KeyCode::B)
    } else if same_text(name, "KeyC") {
        Some(KeyCode::C)
    } else if same_text(name, "KeyD") {
        Some(KeyCode::D)
    } else if same_text(name, "KeyE") {
        Some(KeyCode::E)
    } else if same_text(name, "KeyF") {
        Some(KeyCode::F)
    } else if same_text(name, "KeyG") {
        Some(KeyCode::G)
    } else if same_text(name, "KeyH") {
        Some(KeyCode::H)
    } else if same_text(name, "KeyI") {
        Some(KeyCode::I)
    } else if same_text(name, "KeyJ") {
        Some(KeyCode::J)
    } else if same_text(name, "KeyK") {
        Some(KeyCode::K)
    } else if same_text(name, "KeyL") {
        Some(KeyCode::L)
    } else if same_text(name, "KeyM") {
        Some(KeyCode::M)
    } else if same_text(name, "KeyN") {
        Some(KeyCode::N)
    } else if same_text(name, "KeyO") {
        Some(KeyCode::O)
    } else if same_text(name, "KeyP") {
        Some(KeyCode::P)
    } else if same_text(name, "KeyQ") {
        Some(KeyCode::Q)
    } else if same_text(name, "KeyR") {
        Some(KeyCode::R)
    } else if same_text(name, "KeyS") {
        Some(KeyCode::S)
    } else if same_text(name, "KeyT") {
        Some(KeyCode::T)
    } else if same_text(name, "KeyU") {
        Some(KeyCode::U)
    } else if same_text(name, "KeyV") {
        Some(KeyCode::V)
    } else if same_text(name, "KeyW") {
        Some(KeyCode::W)
    } else if same_text(name, "KeyX") {
        Some(KeyCode::X)
    } else if same_text(name, "KeyY") {
        Some(KeyCode::Y)
    } else if same_text(name, "KeyZ") {
        Some(KeyCode::Z)
    } else {
        None
    }
}

fn find_function_key(name: &str) -> (r: Option<KeyCode>)
    ensures
        r == function_key_named(name@),
{
    if same_text(name, "Escape") {
        Some(KeyCode::Escape)
    } else if same_text(name, "F1") {
        Some(KeyCode::F1)
    } else if same_text(name, "F2") {
        Some(KeyCode::F2)
    } else if same_text(name, "F3") {
        Some(KeyCode::F3)
    } else if same_text(name, "F4") {
        Some(KeyCode::F4)
    } else if same_text(name, "F5") {
        Some(KeyCode::F5)
    } else if same_text(name, "F6") {
        Some(KeyCode::F6)
    } else if same_text(name, "F7") {
        Some(KeyCode::F7)
    } else if same_text(name, "F8") {
        Some(KeyCode::F8)
    } else if same_text(name, "F9") {
        Some(KeyCode::F9)
    } else if same_text(name, "F10") {
        Some(KeyCode::F10)
    } else if same_text(name, "F11") {
        Some(KeyCode::F11)
    } else if same_text(name, "F12") {
        Some(KeyCode::F12)
    } else if same_text(name, "F13") {
        Some(KeyCode::F13)
    } else if same_text(name, "F14") {
        Some(KeyCode::F14)
    } else if same_text(name, "F15") {
        Some(KeyCode::F15)
    } else if same_text(name, "F16") {
        Some(KeyCode::F16)
    } else if same_text(name, "F17") {
        Some(KeyCode::F17)
    } else if same_text(name, "F18") {
        Some(KeyCode::F18)
    } else if same_text(name, "F19") {
        Some(KeyCode::F19)
    } else if same_text(name, "F20") {
        Some(KeyCode::F20)
    } else if same_text(name, "F21") {
        Some(KeyCode::F21)
    } else if same_text(name, "F22") {
        Some(KeyCode::F22)
    } else if same_text(name, "F23") {
        Some(KeyCode::F23)
    } else if same_text(name, "F24") {
        Some(KeyCode::F24)
    } else {
        None
    }
}

fn find_editing_key(name: &str) -> (r: Option<KeyCode>)
    ensures
        r == editing_key_named(name@),
{
    if same_text(name, "PrintScreen") {
        Some(KeyCode::Snapshot)
    } else if same_text(name, "ScrollLock") {
        Some(KeyCode::Scroll)
    } else if same_text(name, "Pause") {
        Some(KeyCode::Pause)
    } else if same_text(name, "Insert") {
        Some(KeyCode::Insert)
    } else if same_text(name, "Home") {
        Some(KeyCode::Home)
    } else if same_text(name, "Delete") {
        Some(KeyCode::Delete)
    } else if same_text(name, "End") {
        Some(KeyCode::End)
    } else if same_text(name, "PageDown") {
        Some(KeyCode::PageDown)
    } else if same_text(name, "PageUp") {
        Some(KeyCode::PageUp)
    } else if same_text(name, "ArrowLeft") {
        Some(KeyCode::Left)
    } else if same_text(name, "ArrowUp") {
        Some(KeyCode::Up)
    } else if same_text(name, "ArrowRight") {
        Some(KeyCode::Right)
    } else if same_text(name, "ArrowDown") {
        Some(KeyCode::Down)
    } else if same_text(name, "Backspace") {
        Some(KeyCode::Back)
    } else if same_text(name, "Enter") {
        Some(KeyCode::Return)
    } else if same_text(name, "Space") {
        Some(KeyCode::Space)
    } else if same_text(name, "Compose") {
        Some(KeyCode::Compose)
    } else if same_text(name, "Caret") {
        Some(KeyCode::Caret)
    } else {
        None
    }
}

fn find_keypad_key(name: &str) -> (r: Option<KeyCode>)
    ensures
        r == keypad_key_named(name@),
{
    if same_text(name, "NumLock") {
        Some(KeyCode::Numlock)
    } else if same_text(name, "Numpad0") {
        Some(KeyCode::Numpad0)
    } else if same_text(name, "Numpad1") {
        Some(KeyCode::Numpad1)
    } else if same_text(name, "Numpad2") {
        Some(KeyCode::Numpad2)
    } else if same_text(name, "Numpad3") {
        Some(KeyCode::Numpad3)
    } else if same_text(name, "Numpad4") {
        Some(KeyCode::Numpad4)
    } else if same_text(name, "Numpad5") {
        Some(KeyCode::Numpad5)
    } else if same_text(name, "Numpad6") {
        Some(KeyCode::Numpad6)
    } else if same_text(name, "Numpad7") {
        Some(KeyCode::Numpad7)
    } else if same_text(name, "Numpad8") {
        Some(KeyCode::Numpad8)
    } else if same_text(name, "Numpad9") {
        Some(KeyCode::Numpad9)
    } else if same_text(name, "AbntC1") {
        Some(KeyCode::AbntC1)
    } else if same_text(name, "AbntC2") {
        Some(KeyCode::AbntC2)
    } else if same_text(name, "NumpadAdd") {
        Some(KeyCode::NumpadAdd)
    } else {
        None
    }
}

fn find_first_half_key(name: &str) -> (r: Option<KeyCode>)
    ensures
        r == first_half_key_named(name@),
{
    if same_text(name, "Quote") {
        Some(KeyCode::Apostrophe)
    } else if same_text(name, "Apps") {
        Some(KeyCode::Apps)
    } else if same_text(name, "At") {
        Some(KeyCode::At)
    } else if same_text(name, "Ax") {
        Some(KeyCode::Ax)
    } else if same_text(name, "Backslash") {
        Some(KeyCode::Backslash)
    } else if same_text(name, "Calculator") {
        Some(KeyCode::Calculator)
    } else if same_text(name, "Capital") {
        Some(KeyCode::Capital)
    } else if same_text(name, "Semicolon") {
        Some(KeyCode::Semicolon)
    } else if same_text(name, "Comma") {
        Some(KeyCode::Comma)
    } else if same_text(name, "Convert") {
        Some(KeyCode::Convert)
    } else if same_text(name, "NumpadDecimal") {
        Some(KeyCode::NumpadDecimal)
    } else if same_text(name, "NumpadDivide") {
        Some(KeyCode::NumpadDivide)
    } else if same_text(name, "Equal") {
        Some(KeyCode::Equals)
    } else if same_text(name, "Backquote") {
        Some(KeyCode::Grave)
    } else if same_text(name, "Kana") {
        Some(KeyCode::Kana)
    } else if same_text(name, "Kanji") {
        Some(KeyCode::Kanji)
    } else if same_text(name, "AltLeft") {
        Some(KeyCode::LAlt)
    } else if same_text(name, "BracketLeft") {
        Some(KeyCode::LBracket)
    } else if same_text(name, "ControlLeft") {
        Some(KeyCode::LControl)
    } else if same_text(name, "ShiftLeft") {
        Some(KeyCode::LShift)
    } else if same_text(name, "MetaLeft") {
        Some(KeyCode::LWin)
    } else if same_text(name, "Mail") {
        Some(KeyCode::Mail)
    } else if same_text(name, "MediaSelect") {
        Some(KeyCode::MediaSelect)
    } else if same_text(name, "MediaStop") {
        Some(KeyCode::MediaStop)
    } else if same_text(name, "Minus") {
        Some(KeyCode::Minus)
    } else if same_text(name, "NumpadMultiply") {
        Some(KeyCode::NumpadMultiply)
    } else if same_text(name, "Mute") {
        Some(KeyCode::Mute)
    } else if same_text(name, "LaunchMyComputer") {
        Some(KeyCode::MyComputer)
    } else {
        None
    }
}

fn find_second_half_key(name: &str) -> (r: Option<KeyCode>)
    ensures
        r == second_half_key_named(name@),
{
    if same_text(name, "NavigateForward") {
        Some(KeyCode::NavigateForward)
    } else if same_text(name, "NavigateBackward") {
        Some(KeyCode::NavigateBackward)
    } else if same_text(name, "NextTrack") {
        Some(KeyCode::NextTrack)
    } else if same_text(name, "NoConvert") {
        Some(KeyCode::NoConvert)
    } else if same_text(name, "NumpadComma") {
        Some(KeyCode::NumpadComma)
    } else if same_text(name, "NumpadEnter") {
        Some(KeyCode::NumpadEnter)
    } else if same_text(name, "NumpadEquals") {
        Some(KeyCode::NumpadEquals)
    } else if same_text(name, "OEM102") {
        Some(KeyCode::OEM102)
    } else if same_text(name, "Period") {
        Some(KeyCode::Period)
    } else if same_text(name, "PlayPause") {
        Some(KeyCode::PlayPause)
    } else if same_text(name, "Power") {
        Some(KeyCode::Power)
    } else if same_text(name, "PrevTrack") {
        Some(KeyCode::PrevTrack)
    } else if same_text(name, "AltRight") {
        Some(KeyCode::RAlt)
    } else if same_text(name, "BracketRight") {
        Some(KeyCode::RBracket)
    } else if same_text(name, "ControlRight") {
        Some(KeyCode::RControl)
    } else if same_text(name, "ShiftRight") {
        Some(KeyCode::RShift)
    } else if same_text(name, "MetaRight") {
        Some(KeyCode::RWin)
    } else if same_text(name, "Slash") {
        Some(KeyCode::Slash)
    } else if same_text(name, "Sleep") {
        Some(KeyCode::Sleep)
    } else if same_text(name, "Stop") {
        Some(KeyCode::Stop)
    } else if same_text(name, "NumpadSubtract") {
        Some(KeyCode::NumpadSubtract)
    } else if same_text(name, "Sysrq") {
        Some(KeyCode::Sysrq)
    } else if same_text(name, "Tab") {
        Some(KeyCode::Tab)
    } else if same_text(name, "Underline") {
        Some(KeyCode::Underline)
    } else if same_text(name, "Unlabeled") {
        Some(KeyCode::Unlabeled)
    } else if same_text(name, "AudioVolumeDown") {
        Some(KeyCode::VolumeDown)
    } else if same_text(name, "AudioVolumeUp") {
        Some(KeyCode::VolumeUp)
    } else if same_text(name, "Wake") {
        Some(KeyCode::Wake)
    } else if same_text(name, "WebBack") {
        Some(KeyCode::WebBack)
    } else if same_text(name, "WebFavorites") {
        Some(KeyCode::WebFavorites)
    } else if same_text(name, "WebForward") {
        Some(KeyCode::WebForward)
    } else if same_text(name, "WebHome") {
        Some(KeyCode::WebHome)
    } else if same_text(name, "WebRefresh") {
        Some(KeyCode::WebRefresh)
    } else if same_text(name, "WebSearch") {
        Some(KeyCode::WebSearch)
    } else if same_text(name, "WebStop") {
        Some(KeyCode::WebStop)
    } else if same_text(name, "Yen") {
        Some(KeyCode::Yen)
    } else {
        None
    }
}

/// Finds the key that the code `name` of a keyboard event stands for.
pub fn virtual_key_code(name: &str) -> (r: Option<KeyCode>)
    ensures
        r == key_code_named(name@),
{
    if let Some(key) = find_digit_key(name) {
        return Some(key);
    }
    if let Some(key) = find_letter_key(name) {
        return Some(key);
    }
    if let Some(key) = find_function_key(name) {
        return Some(key);
    }
    if let Some(key) = find_editing_key(name) {
        return Some(key);
    }
    if let Some(key) = find_keypad_key(name) {
        return Some(key);
    }
    if let Some(key) = find_first_half_key(name) {
        return Some(key);
    }
    find_second_half_key(name)
}

} // verus!
