use vstd::prelude::*;

verus! {

/// A physical key, as reported by the global keyboard hook.
#[derive(Clone, Copy, Debug, PartialEq, Eq, Structural, Hash)]
pub enum Key {
    /// Alt on Linux and Windows, option on macOS.
    Alt,
    AltGr,
    Backspace,
    CapsLock,
    ControlLeft,
    ControlRight,
    Delete,
    DownArrow,
    End,
    Escape,
    F1,
    F10,
    F11,
    F12,
    F2,
    F3,
    F4,
    F5,
    F6,
    F7,
    F8,
    F9,
    Home,
    LeftArrow,
    /// Also known as "windows", "super" or "command".
    MetaLeft,
    /// Also known as "windows", "super" or "command".
    MetaRight,
    PageDown,
    PageUp,
    Return,
    RightArrow,
    ShiftLeft,
    ShiftRight,
    Space,
    Tab,
    UpArrow,
    PrintScreen,
    ScrollLock,
    Pause,
    NumLock,
    BackQuote,
    Num1,
    Num2,
    Num3,
    Num4,
    Num5,
    Num6,
    Num7,
    Num8,
    Num9,
    Num0,
    Minus,
    Equal,
    KeyQ,
    KeyW,
    KeyE,
    KeyR,
    KeyT,
    KeyY,
    KeyU,
    KeyI,
    KeyO,
    KeyP,
    LeftBracket,
    RightBracket,
    KeyA,
    KeyS,
    KeyD,
    KeyF,
    KeyG,
    KeyH,
    KeyJ,
    KeyK,
    KeyL,
    SemiColon,
    Quote,
    BackSlash,
    IntlBackslash,
    KeyZ,
    KeyX,
    KeyC,
    KeyV,
    KeyB,
    KeyN,
    KeyM,
    Comma,
    Dot,
    Slash,
    Insert,
    KpReturn,
    KpMinus,
    KpPlus,
    KpMultiply,
    KpDivide,
    Kp0,
    Kp1,
    Kp2,
    Kp3,
    Kp4,
    Kp5,
    Kp6,
    Kp7,
    Kp8,
    Kp9,
    KpDelete,
    Function,
    /// A key without a name of its own, by its platform code.
    Unknown(u32),
}

/// The glyph that stands for an erase of the last character rather than for text.
pub open spec fn backspace_glyph() -> Seq<char> {
    "backspace"@
}

/// The character of a decimal digit.
pub open spec fn digit_char(d: nat) -> char {
    if d == 0 { '0' }
    else if d == 1 { '1' }
    else if d == 2 { '2' }
    else if d == 3 { '3' }
    else if d == 4 { '4' }
    else if d == 5 { '5' }
    else if d == 6 { '6' }
    else if d == 7 { '7' }
    else if d == 8 { '8' }
    else { '9' }
}

/// The decimal notation of `n`, without leading zeros.
pub open spec fn decimal_of(n: nat) -> Seq<char>
    decreases n,
{
    if n < 10 {
        seq![digit_char(n)]
    } else {
        decimal_of(n / 10).push(digit_char(n % 10))
    }
}

/// The name of a key without a name of its own: `Unknown(` and its platform
/// code in decimal, then `)`.
pub open spec fn unknown_name(code: u32) -> Seq<char> {
    "Unknown("@ + decimal_of(code as nat) + ")"@
}

/// The glyph shown for a key press.
pub open spec fn glyph_of(k: Key) -> Seq<char> {
    match k {
        Key::Alt | Key::AltGr => "Alt"@,
        Key::Backspace => "backspace"@,
        Key::CapsLock => "Cap"@,
        Key::ControlLeft => "C-L"@,
        Key::ControlRight => "C-R"@,
        Key::Delete => "Del"@,
        Key::DownArrow => "↓"@,
        Key::End => "End"@,
        Key::Escape => "Esc"@,
        Key::F1 => "F1"@,
        Key::F2 => "F2"@,
        Key::F3 => "F3"@,
        Key::F4 => "F4"@,
        Key::F5 => "F5"@,
        Key::F6 => "F6"@,
        Key::F7 => "F7"@,
        Key::F8 => "F8"@,
        Key::F9 => "F9"@,
        Key::F10 => "F10"@,
        Key::F11 => "F11"@,
        Key::F12 => "F12"@,
        Key::Home => "Home"@,
        Key::LeftArrow => "←"@,
        Key::MetaLeft => "Win"@,
        Key::MetaRight => "Win"@,
        Key::PageDown => "⇟"@,
        Key::PageUp => "⇞"@,
        Key::Return => "<-|"@,
        Key::RightArrow => "→"@,
        Key::ShiftLeft | Key::ShiftRight => "$"@,
        Key::Space => " "@,
        Key::Tab => "|->"@,
        Key::UpArrow => "↑"@,
        Key::PrintScreen => "Prt-Scr"@,
        Key::NumLock => "N-L"@,
        Key::BackQuote => "`"@,
        Key::Num1 => "1"@,
        Key::Num2 => "2"@,
        Key::Num3 => "3"@,
        Key::Num4 => "4"@,
        Key::Num5 => "5"@,
        Key::Num6 => "6"@,
        Key::Num7 => "7"@,
        Key::Num8 => "8"@,
        Key::Num9 => "9"@,
        Key::Num0 => "0"@,
        Key::Minus => "-"@,
        Key::Equal => "="@,
        Key::KeyQ => "Q"@,
        Key::KeyW => "W"@,
        Key::KeyE => "E"@,
        Key::KeyR => "R"@,
        Key::KeyT => "T"@,
        Key::KeyY => "Y"@,
        Key::KeyU => "U"@,
        Key::KeyI => "I"@,
        Key::KeyO => "O"@,
        Key::KeyP => "P"@,
        Key::LeftBracket => "["@,
        Key::RightBracket => "]"@,
        Key::KeyA => "A"@,
        Key::KeyS => "S"@,
        Key::KeyD => "D"@,
        Key::KeyF => "F"@,
        Key::KeyG => "G"@,
        Key::KeyH => "H"@,
        Key::KeyJ => "J"@,
        Key::KeyK => "K"@,
        Key::KeyL => "L"@,
        Key::SemiColon => ";"@,
        Key::Quote => "'"@,
        Key::BackSlash => "\\"@,
        Key::IntlBackslash => "\\"@,
        Key::KeyZ => "Z"@,
        Key::KeyX => "X"@,
        Key::KeyC => "C"@,
        Key::KeyV => "V"@,
        Key::KeyB => "B"@,
        Key::KeyN => "N"@,
        Key::KeyM => "M"@,
        Key::Comma => ","@,
        Key::Dot => "."@,
        Key::Slash => "/"@,
        Key::Insert => "Insert"@,
        Key::KpReturn => "Enter"@,
        Key::KpMinus => "-"@,
        Key::KpPlus => "+"@,
        Key::KpMultiply => "*"@,
        Key::KpDivide => "/"@,
        Key::Kp0 => "0"@,
        Key::Kp1 => "1"@,
        Key::Kp2 => "2"@,
        Key::Kp3 => "3"@,
        Key::Kp4 => "4"@,
        Key::Kp5 => "5"@,
        Key::Kp6 => "6"@,
        Key::Kp7 => "7"@,
        Key::Kp8 => "8"@,
        Key::Kp9 => "9"@,
        Key::KpDelete => "Del"@,
        Key::Function => "Fn"@,
        Key::ScrollLock => "ScrollLock"@,
        Key::Pause => "Pause"@,
        Key::Unknown(code) => unknown_name(code),
    }
}

/// Appends the decimal notation of `n` to `s`.
fn push_decimal(s: &mut String, n: u32)
    ensures
        final(s)@ == old(s)@ + decimal_of(n as nat),
    decreases n,
{
    if n >= 10 {
        push_decimal(s, n / 10);
    }
    let d = n % 10;
    let old_text = Ghost(s@);
    if d == 0 {
        s.append("0");
    } else if d == 1 {
        s.append("1");
    } else if d == 2 {
        s.append("2");
    } else if d == 3 {
        s.append("3");
    } else if d == 4 {
        s.append("4");
    } else if d == 5 {
        s.append("5");
    } else if d == 6 {
        s.append("6");
    } else if d == 7 {
        s.append("7");
    } else if d == 8 {
        s.append("8");
    } else {
        s.append("9");
    }
    proof {
        reveal_strlit("0");
        reveal_strlit("1");
        reveal_strlit("2");
        reveal_strlit("3");
        reveal_strlit("4");
        reveal_strlit("5");
        reveal_strlit("6");
        reveal_strlit("7");
        reveal_strlit("8");
        reveal_strlit("9");
        assert(s@ == old_text@ + seq![digit_char(d as nat)]);
        if n >= 10 {
            assert(decimal_of(n as nat) == decimal_of((n / 10) as nat).push(digit_char(d as nat)));
        }
    }
}

/// The text for a key without a name of its own.
fn unknown_string(code: u32) -> (r: String)
    ensures
        r@ == unknown_name(code),
{
    let mut s = String::from_str("Unknown(");
    push_decimal(&mut s, code);
    s.append(")");
    s
}

/// Maps a key to the short text the overlay shows for it.
pub fn get_string(code: Key) -> (r: String)
    ensures
        r@ == glyph_of(code),
{
    match code {
        Key::Alt | Key::AltGr => String::from_str("Alt"),
        Key::Backspace => String::from_str("backspace"),
        Key::CapsLock => String::from_str("Cap"),
        Key::ControlLeft => String::from_str("C-L"),
        Key::ControlRight => String::from_str("C-R"),
        Key::Delete => String::from_str("Del"),
        Key::DownArrow => String::from_str("↓"),
        Key::End => String::from_str("End"),
        Key::Escape => String::from_str("Esc"),
        Key::F1 => String::from_str("F1"),
        Key::F2 => String::from_str("F2"),
        Key::F3 => String::from_str("F3"),
        Key::F4 => String::from_str("F4"),
        Key::F5 => String::from_str("F5"),
        Key::F6 => String::from_str("F6"),
        Key::F7 => String::from_str("F7"),
        Key::F8 => String::from_str("F8"),
        Key::F9 => String::from_str("F9"),
        Key::F10 => String::from_str("F10"),
        Key::F11 => String::from_str("F11"),
        Key::F12 => String::from_str("F12"),
        Key::Home => String::from_str("Home"),
        Key::LeftArrow => String::from_str("←"),
        Key::MetaLeft => String::from_str("Win"),
        Key::MetaRight => String::from_str("Win"),
        Key::PageDown => String::from_str("⇟"),
        Key::PageUp => String::from_str("⇞"),
        Key::Return => String::from_str("<-|"),
        Key::RightArrow => String::from_str("→"),
        Key::ShiftLeft | Key::ShiftRight => String::from_str("$"),
        Key::Space => String::from_str(" "),
        Key::Tab => String::from_str("|->"),
        Key::UpArrow => String::from_str("↑"),
        Key::PrintScreen => String::from_str("Prt-Scr"),
        Key::NumLock => String::from_str("N-L"),
        Key::BackQuote => String::from_str("`"),
        Key::Num1 => String::from_str("1"),
        Key::Num2 => String::from_str("2"),
        Key::Num3 => String::from_str("3"),
        Key::Num4 => String::from_str("4"),
        Key::Num5 => String::from_str("5"),
        Key::Num6 => String::from_str("6"),
        Key::Num7 => String::from_str("7"),
        Key::Num8 => String::from_str("8"),
        Key::Num9 => String::from_str("9"),
        Key::Num0 => String::from_str("0"),
        Key::Minus => String::from_str("-"),
        Key::Equal => String::from_str("="),
        Key::KeyQ => String::from_str("Q"),
        Key::KeyW => String::from_str("W"),
        Key::KeyE => String::from_str("E"),
        Key::KeyR => String::from_str("R"),
        Key::KeyT => String::from_str("T"),
        Key::KeyY => String::from_str("Y"),
        Key::KeyU => String::from_str("U"),
        Key::KeyI => String::from_str("I"),
        Key::KeyO => String::from_str("O"),
        Key::KeyP => String::from_str("P"),
        Key::LeftBracket => String::from_str("["),
        Key::RightBracket => String::from_str("]"),
        Key::KeyA => String::from_str("A"),
        Key::KeyS => String::from_str("S"),
        Key::KeyD => String::from_str("D"),
        Key::KeyF => String::from_str("F"),
        Key::KeyG => String::from_str("G"),
        Key::KeyH => String::from_str("H"),
        Key::KeyJ => String::from_str("J"),
        Key::KeyK => String::from_str("K"),
        Key::KeyL => String::from_str("L"),
        Key::SemiColon => String::from_str(";"),
        Key::Quote => String::from_str("'"),
        Key::BackSlash => String::from_str("\\"),
        Key::IntlBackslash => String::from_str("\\"),
        Key::KeyZ => String::from_str("Z"),
        Key::KeyX => String::from_str("X"),
        Key::KeyC => String::from_str("C"),
        Key::KeyV => String::from_str("V"),
        Key::KeyB => String::from_str("B"),
        Key::KeyN => String::from_str("N"),
        Key::KeyM => String::from_str("M"),
        Key::Comma => String::from_str(","),
        Key::Dot => String::from_str("."),
        Key::Slash => String::from_str("/"),
        Key::Insert => String::from_str("Insert"),
        Key::KpReturn => String::from_str("Enter"),
        Key::KpMinus => String::from_str("-"),
        Key::KpPlus => String::from_str("+"),
        Key::KpMultiply => String::from_str("*"),
        Key::KpDivide => String::from_str("/"),
        Key::Kp0 => String::from_str("0"),
        Key::Kp1 => String::from_str("1"),
        Key::Kp2 => String::from_str("2"),
        Key::Kp3 => String::from_str("3"),
        Key::Kp4 => String::from_str("4"),
        Key::Kp5 => String::from_str("5"),
        Key::Kp6 => String::from_str("6"),
        Key::Kp7 => String::from_str("7"),
        Key::Kp8 => String::from_str("8"),
        Key::Kp9 => String::from_str("9"),
        Key::KpDelete => String::from_str("Del"),
        Key::Function => String::from_str("Fn"),

        Key::ScrollLock => String::from_str("ScrollLock"),
        Key::Pause => String::from_str("Pause"),
        Key::Unknown(n) => unknown_string(n),
    }
}

/// Every decimal notation has at least one digit.
pub proof fn lemma_decimal_nonempty(n: nat)
    ensures
        decimal_of(n).len() >= 1,
    decreases n,
{
    if n >= 10 {
        lemma_decimal_nonempty(n / 10);
    }
}

/// The shape of each glyph: never empty, and of another length than the
/// erase glyph unless it is the erase glyph.
proof fn lemma_glyph_shape(k: Key)
    ensures
        glyph_of(k).len() > 0,
        k != Key::Backspace ==> glyph_of(k).len() != backspace_glyph().len(),
{
    reveal_strlit("backspace");
    match k {
        Key::Alt | Key::AltGr => {
            reveal_strlit("Alt");
        },
        Key::Backspace => {
            reveal_strlit("backspace");
        },
        Key::CapsLock => {
            reveal_strlit("Cap");
        },
        Key::ControlLeft => {
            reveal_strlit("C-L");
        },
        Key::ControlRight => {
            reveal_strlit("C-R");
        },
        Key::Delete => {
            reveal_strlit("Del");
        },
        Key::DownArrow => {
            reveal_strlit("↓");
        },
        Key::End => {
            reveal_strlit("End");
        },
        Key::Escape => {
            reveal_strlit("Esc");
        },
        Key::F1 => {
            reveal_strlit("F1");
        },
        Key::F2 => {
            reveal_strlit("F2");
        },
        Key::F3 => {
            reveal_strlit("F3");
        },
        Key::F4 => {
            reveal_strlit("F4");
        },
        Key::F5 => {
            reveal_strlit("F5");
        },
        Key::F6 => {
            reveal_strlit("F6");
        },
        Key::F7 => {
            reveal_strlit("F7");
        },
        Key::F8 => {
            reveal_strlit("F8");
        },
        Key::F9 => {
            reveal_strlit("F9");
        },
        Key::F10 => {
            reveal_strlit("F10");
        },
        Key::F11 => {
            reveal_strlit("F11");
        },
        Key::F12 => {
            reveal_strlit("F12");
        },
        Key::Home => {
            reveal_strlit("Home");
        },
        Key::LeftArrow => {
            reveal_strlit("←");
        },
        Key::MetaLeft => {
            reveal_strlit("Win");
        },
        Key::MetaRight => {
            reveal_strlit("Win");
        },
        Key::PageDown => {
            reveal_strlit("⇟");
        },
        Key::PageUp => {
            reveal_strlit("⇞");
        },
        Key::Return => {
            reveal_strlit("<-|");
        },
        Key::RightArrow => {
            reveal_strlit("→");
        },
        Key::ShiftLeft | Key::ShiftRight => {
            reveal_strlit("$");
        },
        Key::Space => {
            reveal_strlit(" ");
        },
        Key::Tab => {
            reveal_strlit("|->");
        },
        Key::UpArrow => {
            reveal_strlit("↑");
        },
        Key::PrintScreen => {
            reveal_strlit("Prt-Scr");
        },
        Key::NumLock => {
            reveal_strlit("N-L");
        },
        Key::BackQuote => {
            reveal_strlit("`");
        },
        Key::Num1 => {
            reveal_strlit("1");
        },
        Key::Num2 => {
            reveal_strlit("2");
        },
        Key::Num3 => {
            reveal_strlit("3");
        },
        Key::Num4 => {
            reveal_strlit("4");
        },
        Key::Num5 => {
            reveal_strlit("5");
        },
        Key::Num6 => {
            reveal_strlit("6");
        },
        Key::Num7 => {
            reveal_strlit("7");
        },
        Key::Num8 => {
            reveal_strlit("8");
        },
        Key::Num9 => {
            reveal_strlit("9");
        },
        Key::Num0 => {
            reveal_strlit("0");
        },
        Key::Minus => {
            reveal_strlit("-");
        },
        Key::Equal => {
            reveal_strlit("=");
        },
        Key::KeyQ => {
            reveal_strlit("Q");
        },
        Key::KeyW => {
            reveal_strlit("W");
        },
        Key::KeyE => {
            reveal_strlit("E");
        },
        Key::KeyR => {
            reveal_strlit("R");
        },
        Key::KeyT => {
            reveal_strlit("T");
        },
        Key::KeyY => {
            reveal_strlit("Y");
        },
        Key::KeyU => {
            reveal_strlit("U");
        },
        Key::KeyI => {
            reveal_strlit("I");
        },
        Key::KeyO => {
            reveal_strlit("O");
        },
        Key::KeyP => {
            reveal_strlit("P");
        },
        Key::LeftBracket => {
            reveal_strlit("[");
        },
        Key::RightBracket => {
            reveal_strlit("]");
        },
        Key::KeyA => {
            reveal_strlit("A");
        },
        Key::KeyS => {
            reveal_strlit("S");
        },
        Key::KeyD => {
            reveal_strlit("D");
        },
        Key::KeyF => {
            reveal_strlit("F");
        },
        Key::KeyG => {
            reveal_strlit("G");
        },
        Key::KeyH => {
            reveal_strlit("H");
        },
        Key::KeyJ => {
            reveal_strlit("J");
        },
        Key::KeyK => {
            reveal_strlit("K");
        },
        Key::KeyL => {
            reveal_strlit("L");
        },
        Key::SemiColon => {
            reveal_strlit(";");
        },
        Key::Quote => {
            reveal_strlit("'");
        },
        Key::BackSlash => {
            reveal_strlit("\\");
        },
        Key::IntlBackslash => {
            reveal_strlit("\\");
        },
        Key::KeyZ => {
            reveal_strlit("Z");
        },
        Key::KeyX => {
            reveal_strlit("X");
        },
        Key::KeyC => {
            reveal_strlit("C");
        },
        Key::KeyV => {
            reveal_strlit("V");
        },
        Key::KeyB => {
            reveal_strlit("B");
        },
        Key::KeyN => {
            reveal_strlit("N");
        },
        Key::KeyM => {
            reveal_strlit("M");
        },
        Key::Comma => {
            reveal_strlit(",");
        },
        Key::Dot => {
            reveal_strlit(".");
        },
        Key::Slash => {
            reveal_strlit("/");
        },
        Key::Insert => {
            reveal_strlit("Insert");
        },
        Key::KpReturn => {
            reveal_strlit("Enter");
        },
        Key::KpMinus => {
            reveal_strlit("-");
        },
        Key::KpPlus => {
            reveal_strlit("+");
        },
        Key::KpMultiply => {
            reveal_strlit("*");
        },
        Key::KpDivide => {
            reveal_strlit("/");
        },
        Key::Kp0 => {
            reveal_strlit("0");
        },
        Key::Kp1 => {
            reveal_strlit("1");
        },
        Key::Kp2 => {
            reveal_strlit("2");
        },
        Key::Kp3 => {
            reveal_strlit("3");
        },
        Key::Kp4 => {
            reveal_strlit("4");
        },
        Key::Kp5 => {
            reveal_strlit("5");
        },
        Key::Kp6 => {
            reveal_strlit("6");
        },
        Key::Kp7 => {
            reveal_strlit("7");
        },
        Key::Kp8 => {
            reveal_strlit("8");
        },
        Key::Kp9 => {
            reveal_strlit("9");
        },
        Key::KpDelete => {
            reveal_strlit("Del");
        },
        Key::Function => {
            reveal_strlit("Fn");
        },
        Key::ScrollLock => {
            reveal_strlit("ScrollLock");
        },
        Key::Pause => {
            reveal_strlit("Pause");
        },
        Key::Unknown(code) => {
            lemma_decimal_nonempty(code as nat);
            reveal_strlit("Unknown(");
            reveal_strlit(")");
            assert(unknown_name(code).len() == "Unknown("@.len() + decimal_of(code as nat).len()
                + 1);
        },
    }
}

/// The glyph of every key, in the table or not, is a non-empty text.
pub proof fn lemma_glyph_nonempty(k: Key)
    ensures
        glyph_of(k).len() > 0,
{
    lemma_glyph_shape(k);
}

/// Only the backspace key produces the erase glyph; every other key's glyph
/// is text to be shown.
pub proof fn lemma_only_backspace_erases(k: Key)
    ensures
        (glyph_of(k) == backspace_glyph()) <==> (k == Key::Backspace),
{
    lemma_glyph_shape(k);
}

} // verus!
