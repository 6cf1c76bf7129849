//! Which byte strings the adapter hands to the JSON parser.
//!
//! The parser of `rustc_serialize` does not come back from every text, nor
//! with the right document:
//!
//! - it keeps the keys of the objects it is inside of, as they read once their
//!   escapes are resolved, in one buffer that it addresses with 16-bit
//!   offsets, and stops or cuts a key short when the keys on the way down to
//!   the value it reads are longer than [`MAX_KEY_BYTES`] together;
//! - it adds up the exponent of a number in a machine word, and stops when the
//!   exponent does not fit;
//! - it numbers the elements of an array in 32 bits;
//! - it calls itself once for every array or object that it enters;
//! - when `,` stands directly before `}` in an object inside another array or
//!   object, it loses track of what it is inside of, and can stop on what
//!   follows.
//!
//! One pass over the bytes, which follows the quoting of strings and nothing
//! else of the grammar, tells whether a text stays clear of all of these. It
//! turns down a text exactly where the parser would get there, were the text
//! JSON up to that point. No JSON text has `,` directly before `}`. So of the
//! texts that the grammar allows, the pass turns down those whose keys
//! overrun the buffer or whose exponent overruns the word, which the parser
//! cannot read, and besides them only those that nest deeper than
//! [`MAX_DEPTH`] or are longer than [`MAX_DOCUMENT_LEN`] bytes.

use vstd::prelude::*;

verus! {

/// The longest text, in bytes, that is parsed: below it no array has more
/// elements than 32 bits count.
pub const MAX_DOCUMENT_LEN: usize = 0xFFFF_FFFF;

/// How many arrays and objects may be open at once. The parser calls itself
/// once for each and has no bound of its own; to this depth it gets by on
/// about half a megabyte of stack.
pub const MAX_DEPTH: usize = 512;

/// How many bytes the keys of the open objects may have together: what 16 bits
/// address.
pub const MAX_KEY_BYTES: usize = 0xFFFF;

/// `"`, which opens and closes a string.
pub const QUOTE: u8 = 0x22;

/// `\`, which escapes what follows it inside a string.
pub const BACKSLASH: u8 = 0x5C;

/// `u`, which after a backslash announces four hexadecimal digits.
pub const LOWER_U: u8 = 0x75;

/// `,`
pub const COMMA: u8 = 0x2C;

/// `:`, which follows an object key.
pub const COLON: u8 = 0x3A;

/// `[`
pub const OPEN_BRACKET: u8 = 0x5B;

/// `]`
pub const CLOSE_BRACKET: u8 = 0x5D;

/// `{`
pub const OPEN_BRACE: u8 = 0x7B;

/// `}`
pub const CLOSE_BRACE: u8 = 0x7D;

/// Where the pass stands relative to a string.
#[derive(Clone, Copy, Debug, PartialEq, Eq, Structural)]
pub enum Quoting {
    /// Not in a string.
    Outside,
    /// In a string.
    Plain,
    /// In a string, directly behind a backslash.
    Escaped,
    /// In a string, among the four hexadecimal digits behind `\u`.
    Hex,
}

/// Where the pass stands relative to the exponent of a number.
#[derive(Clone, Copy, Debug, PartialEq, Eq, Structural)]
pub enum Exponent {
    /// Not in an exponent.
    Outside,
    /// Directly behind the `e` or `E`.
    Marker,
    /// Behind the sign or among the digits.
    Digits,
}

/// What one pass over a prefix of the text has found.
pub struct Scan {
    /// The parser would not come back from this prefix.
    pub rejected: bool,
    /// Where the prefix ends relative to a string.
    pub quoting: Quoting,
    /// Among the digits behind `\u`: how many were read.
    pub hex_seen: nat,
    /// Among the digits behind `\u`: their value so far.
    pub hex_unit: nat,
    /// The bytes of the string that was opened last, as it reads with its
    /// escapes resolved; counted no further than one past [`MAX_KEY_BYTES`].
    pub string_bytes: nat,
    /// For each open array or object, outermost first, the bytes of the key
    /// whose value is being read; 0 where there is none.
    pub keys: Seq<nat>,
    /// Outside strings, only white space has followed the last comma.
    pub after_comma: bool,
    /// Where the prefix ends relative to an exponent.
    pub exponent: Exponent,
    /// The value of that exponent so far.
    pub exponent_value: nat,
}

/// The white space that JSON allows between tokens: space, line feed, tab,
/// carriage return.
#[verifier::when_used_as_spec(spec_is_space)]
pub fn is_space(byte: u8) -> (space: bool)
    ensures
        space == spec_is_space(byte),
{
    byte == 0x20 || byte == 0x0A || byte == 0x09 || byte == 0x0D
}

/// What [`is_space`] computes.
pub open spec fn spec_is_space(byte: u8) -> bool {
    byte == 0x20 || byte == 0x0A || byte == 0x09 || byte == 0x0D
}

/// An ASCII digit, `0` to `9`.
#[verifier::when_used_as_spec(spec_is_digit)]
pub fn is_digit(byte: u8) -> (digit: bool)
    ensures
        digit == spec_is_digit(byte),
{
    0x30 <= byte && byte <= 0x39
}

/// What [`is_digit`] computes.
pub open spec fn spec_is_digit(byte: u8) -> bool {
    0x30 <= byte <= 0x39
}

/// `e` or `E`, which opens the exponent of a number.
#[verifier::when_used_as_spec(spec_is_exponent_marker)]
pub fn is_exponent_marker(byte: u8) -> (marker: bool)
    ensures
        marker == spec_is_exponent_marker(byte),
{
    byte == 0x65 || byte == 0x45
}

/// What [`is_exponent_marker`] computes.
pub open spec fn spec_is_exponent_marker(byte: u8) -> bool {
    byte == 0x65 || byte == 0x45
}

/// `+` or `-`.
#[verifier::when_used_as_spec(spec_is_sign)]
pub fn is_sign(byte: u8) -> (sign: bool)
    ensures
        sign == spec_is_sign(byte),
{
    byte == 0x2B || byte == 0x2D
}

/// What [`is_sign`] computes.
pub open spec fn spec_is_sign(byte: u8) -> bool {
    byte == 0x2B || byte == 0x2D
}

/// The value of a hexadecimal digit, in either case; `None` for another byte.
#[verifier::when_used_as_spec(spec_hex_digit)]
pub fn hex_digit(byte: u8) -> (value: Option<u8>)
    ensures
        value == spec_hex_digit(byte),
{
    if 0x30 <= byte && byte <= 0x39 {
        Some(byte - 0x30)
    } else if 0x61 <= byte && byte <= 0x66 {
        Some(byte - 0x61 + 10)
    } else if 0x41 <= byte && byte <= 0x46 {
        Some(byte - 0x41 + 10)
    } else {
        None
    }
}

/// What [`hex_digit`] computes.
pub open spec fn spec_hex_digit(byte: u8) -> Option<u8> {
    if 0x30 <= byte <= 0x39 {
        Some((byte - 0x30) as u8)
    } else if 0x61 <= byte <= 0x66 {
        Some((byte - 0x61 + 10) as u8)
    } else if 0x41 <= byte <= 0x46 {
        Some((byte - 0x41 + 10) as u8)
    } else {
        None
    }
}

/// How many bytes the escape `\u` with the 16-bit value `unit` adds to a
/// string: the length of the character in UTF-8. The first half of a
/// surrogate pair stands for the whole character, the second half for
/// nothing.
pub open spec fn escape_bytes(unit: nat) -> nat {
    if unit < 0x80 {
        1
    } else if unit < 0x800 {
        2
    } else if 0xD800 <= unit < 0xDC00 {
        4
    } else if 0xDC00 <= unit < 0xE000 {
        0
    } else {
        3
    }
}

/// The sum of `keys`.
pub open spec fn total(keys: Seq<nat>) -> nat
    decreases keys.len(),
{
    if keys.len() == 0 {
        0
    } else {
        total(keys.drop_last()) + keys.last()
    }
}

/// `count` more bytes in a string of `bytes`, counted no further than one past
/// [`MAX_KEY_BYTES`].
pub open spec fn longer(bytes: nat, count: nat) -> nat {
    if bytes + count > MAX_KEY_BYTES {
        (MAX_KEY_BYTES + 1) as nat
    } else {
        bytes + count
    }
}

impl Scan {
    /// Before the first byte.
    pub open spec fn start() -> Scan {
        Scan {
            rejected: false,
            quoting: Quoting::Outside,
            hex_seen: 0,
            hex_unit: 0,
            string_bytes: 0,
            keys: Seq::empty(),
            after_comma: false,
            exponent: Exponent::Outside,
            exponent_value: 0,
        }
    }

    /// The state with the text turned down; nothing that follows changes it.
    pub open spec fn reject(self) -> Scan {
        Scan { rejected: true, ..self }
    }

    /// The state behind a token that is neither white space nor a comma nor
    /// part of a number's exponent.
    pub open spec fn token(self) -> Scan {
        Scan { after_comma: false, exponent: Exponent::Outside, exponent_value: 0, ..self }
    }

    /// One more byte of a string's own text.
    pub open spec fn plain_step(self, byte: u8) -> Scan {
        if byte == BACKSLASH {
            Scan { quoting: Quoting::Escaped, ..self }
        } else if byte == QUOTE {
            Scan { quoting: Quoting::Outside, ..self }
        } else {
            Scan { quoting: Quoting::Plain, string_bytes: longer(self.string_bytes, 1), ..self }
        }
    }

    /// One more byte inside a string.
    pub open spec fn in_string_step(self, byte: u8) -> Scan {
        if self.quoting == Quoting::Escaped {
            if byte == LOWER_U {
                Scan { quoting: Quoting::Hex, hex_seen: 0, hex_unit: 0, ..self }
            } else {
                Scan { quoting: Quoting::Plain, string_bytes: longer(self.string_bytes, 1), ..self }
            }
        } else if self.quoting == Quoting::Hex && hex_digit(byte) is Some {
            let unit = (self.hex_unit * 16 + hex_digit(byte).unwrap()) as nat;
            if self.hex_seen >= 3 {
                Scan {
                    quoting: Quoting::Plain,
                    hex_seen: 0,
                    hex_unit: 0,
                    string_bytes: longer(self.string_bytes, escape_bytes(unit)),
                    ..self
                }
            } else {
                Scan { hex_seen: self.hex_seen + 1, hex_unit: unit, ..self }
            }
        } else {
            Scan { hex_seen: 0, hex_unit: 0, ..self }.plain_step(byte)
        }
    }

    /// The colon behind a key: the key takes the place of the one before it
    /// in the innermost open object.
    pub open spec fn key_step(self) -> Scan {
        if self.keys.len() == 0 {
            self.token()
        } else {
            let keys = self.keys.update(self.keys.len() - 1, self.string_bytes);
            if total(keys) > MAX_KEY_BYTES {
                self.reject()
            } else {
                Scan { keys, ..self.token() }
            }
        }
    }

    /// One more digit of an exponent.
    pub open spec fn exponent_step(self, byte: u8) -> Scan {
        let value = self.exponent_value * 10 + (byte - 0x30);
        if value > usize::MAX {
            self.reject()
        } else {
            Scan {
                after_comma: false,
                exponent: Exponent::Digits,
                exponent_value: value as nat,
                ..self
            }
        }
    }

    /// One more byte outside strings.
    pub open spec fn outside_step(self, byte: u8) -> Scan {
        if byte == QUOTE {
            Scan { quoting: Quoting::Plain, string_bytes: 0, ..self.token() }
        } else if is_space(byte) {
            Scan { exponent: Exponent::Outside, exponent_value: 0, ..self }
        } else if byte == COMMA {
            Scan { after_comma: true, ..self.token() }
        } else if byte == OPEN_BRACKET || byte == OPEN_BRACE {
            if self.keys.len() >= MAX_DEPTH {
                self.reject()
            } else {
                Scan { keys: self.keys.push(0), ..self.token() }
            }
        } else if byte == CLOSE_BRACE && self.after_comma {
            self.reject()
        } else if byte == CLOSE_BRACKET || byte == CLOSE_BRACE {
            if self.keys.len() == 0 {
                self.token()
            } else {
                Scan { keys: self.keys.drop_last(), ..self.token() }
            }
        } else if byte == COLON {
            self.key_step()
        } else if is_exponent_marker(byte) {
            Scan { exponent: Exponent::Marker, ..self.token() }
        } else if is_sign(byte) && self.exponent == Exponent::Marker {
            Scan { exponent: Exponent::Digits, ..self.token() }
        } else if is_digit(byte) && self.exponent != Exponent::Outside {
            self.exponent_step(byte)
        } else {
            self.token()
        }
    }

    /// One more byte.
    pub open spec fn step(self, byte: u8) -> Scan {
        if self.rejected {
            self
        } else if self.quoting == Quoting::Outside {
            self.outside_step(byte)
        } else {
            self.in_string_step(byte)
        }
    }
}

/// What a pass over all of `bytes` finds.
pub open spec fn scan(bytes: Seq<u8>) -> Scan
    decreases bytes.len(),
{
    if bytes.len() == 0 {
        Scan::start()
    } else {
        scan(bytes.drop_last()).step(bytes.last())
    }
}

/// `bytes` may be handed to the parser.
pub open spec fn within_limits(bytes: Seq<u8>) -> bool {
    bytes.len() <= MAX_DOCUMENT_LEN && !scan(bytes).rejected
}

/// A prefix that is turned down turns the whole text down.
proof fn lemma_rejection_is_final(bytes: Seq<u8>, len: int)
    requires
        0 <= len <= bytes.len(),
        scan(bytes.take(len)).rejected,
    ensures
        scan(bytes).rejected,
    decreases bytes.len() - len,
{
    if len == bytes.len() {
        assert(bytes.take(len) == bytes);
    } else {
        assert(bytes.take(len + 1).drop_last() == bytes.take(len));
        lemma_rejection_is_final(bytes, len + 1);
    }
}

/// The sum with one more key.
proof fn lemma_total_push(keys: Seq<nat>, key: nat)
    ensures
        total(keys.push(key)) == total(keys) + key,
{
    assert(keys.push(key).drop_last() == keys);
}

/// The sum with the last key replaced.
proof fn lemma_total_update_last(keys: Seq<nat>, key: nat)
    requires
        keys.len() > 0,
    ensures
        total(keys.update(keys.len() - 1, key)) == total(keys) - keys.last() + key,
{
    assert(keys.update(keys.len() - 1, key).drop_last() == keys.drop_last());
}

/// The pass itself: the state of [`Scan`] in machine integers, with the sum of
/// the keys kept beside them.
struct Scanner {
    rejected: bool,
    quoting: Quoting,
    hex_seen: u8,
    hex_unit: u16,
    string_bytes: usize,
    keys: Vec<usize>,
    key_bytes: usize,
    after_comma: bool,
    exponent: Exponent,
    exponent_value: usize,
}

impl View for Scanner {
    type V = Scan;

    closed spec fn view(&self) -> Scan {
        Scan {
            rejected: self.rejected,
            quoting: self.quoting,
            hex_seen: self.hex_seen as nat,
            hex_unit: self.hex_unit as nat,
            string_bytes: self.string_bytes as nat,
            keys: self.keys@.map_values(|key: usize| key as nat),
            after_comma: self.after_comma,
            exponent: self.exponent,
            exponent_value: self.exponent_value as nat,
        }
    }
}

impl Scanner {
    /// What holds of the pass between two bytes.
    closed spec fn well_formed(&self) -> bool {
        &&& self.keys.len() <= MAX_DEPTH
        &&& self.key_bytes == total(self@.keys)
        &&& self.key_bytes <= MAX_KEY_BYTES
        &&& self.string_bytes <= MAX_KEY_BYTES + 1
        &&& self.hex_seen <= 3
        &&& self.hex_seen == 0 ==> self.hex_unit == 0
        &&& self.hex_seen == 1 ==> self.hex_unit < 0x10
        &&& self.hex_seen == 2 ==> self.hex_unit < 0x100
        &&& self.hex_seen == 3 ==> self.hex_unit < 0x1000
    }

    fn start() -> (scanner: Scanner)
        ensures
            scanner@ == Scan::start(),
            scanner.well_formed(),
    {
        let scanner = Scanner {
            rejected: false,
            quoting: Quoting::Outside,
            hex_seen: 0,
            hex_unit: 0,
            string_bytes: 0,
            keys: Vec::new(),
            key_bytes: 0,
            after_comma: false,
            exponent: Exponent::Outside,
            exponent_value: 0,
        };
        assert(scanner@.keys == Seq::<nat>::empty());
        scanner
    }

    /// Mirrors [`Scan::token`].
    fn token(&mut self)
        requires
            old(self).well_formed(),
        ensures
            final(self)@ == old(self)@.token(),
            final(self).well_formed(),
    {
        self.after_comma = false;
        self.exponent = Exponent::Outside;
        self.exponent_value = 0;
    }

    /// Mirrors [`longer`] on the string that is being read.
    fn lengthen(&mut self, count: usize)
        requires
            old(self).well_formed(),
            count <= 4,
        ensures
            final(self)@ == (Scan {
                string_bytes: longer(old(self)@.string_bytes, count as nat),
                ..old(self)@
            }),
            final(self).well_formed(),
    {
        if self.string_bytes + count > MAX_KEY_BYTES {
            self.string_bytes = MAX_KEY_BYTES + 1;
        } else {
            self.string_bytes = self.string_bytes + count;
        }
    }

    /// Mirrors [`Scan::plain_step`].
    fn plain_step(&mut self, byte: u8)
        requires
            old(self).well_formed(),
        ensures
            final(self)@ == old(self)@.plain_step(byte),
            final(self).well_formed(),
    {
        if byte == BACKSLASH {
            self.quoting = Quoting::Escaped;
        } else if byte == QUOTE {
            self.quoting = Quoting::Outside;
        } else {
            self.quoting = Quoting::Plain;
            self.lengthen(1);
        }
    }

    /// Mirrors [`Scan::in_string_step`].
    fn in_string_step(&mut self, byte: u8)
        requires
            old(self).well_formed(),
        ensures
            final(self)@ == old(self)@.in_string_step(byte),
            final(self).well_formed(),
    {
        let digit = hex_digit(byte);
        if self.quoting == Quoting::Escaped {
            if byte == LOWER_U {
                self.quoting = Quoting::Hex;
                self.hex_seen = 0;
                self.hex_unit = 0;
            } else {
                self.quoting = Quoting::Plain;
                self.lengthen(1);
            }
        } else if self.quoting == Quoting::Hex && digit.is_some() {
            let value: u8 = digit.unwrap();
            if self.hex_seen >= 3 {
                let unit: u16 = self.hex_unit * 16 + value as u16;
                self.quoting = Quoting::Plain;
                self.hex_seen = 0;
                self.hex_unit = 0;
                self.lengthen(escape_len(unit));
            } else {
                self.hex_unit = self.hex_unit * 16 + value as u16;
                self.hex_seen = self.hex_seen + 1;
            }
        } else {
            self.hex_seen = 0;
            self.hex_unit = 0;
            self.plain_step(byte);
        }
    }

    /// Mirrors [`Scan::key_step`].
    fn key_step(&mut self)
        requires
            old(self).well_formed(),
            !old(self).rejected,
        ensures
            final(self)@ == old(self)@.key_step(),
            final(self).well_formed(),
    {
        let open = self.keys.len();
        if open == 0 {
            self.token();
        } else {
            let before: usize = self.keys[open - 1];
            proof {
                lemma_total_update_last(self@.keys, self.string_bytes as nat);
            }
            let sum: usize = self.key_bytes - before + self.string_bytes;
            if sum > MAX_KEY_BYTES {
                self.rejected = true;
            } else {
                let ghost keys = self@.keys.update(open - 1, self.string_bytes as nat);
                self.keys.set(open - 1, self.string_bytes);
                self.key_bytes = sum;
                assert(self@.keys == keys);
                self.token();
            }
        }
    }

    /// Mirrors [`Scan::exponent_step`].
    fn exponent_step(&mut self, byte: u8)
        requires
            old(self).well_formed(),
            is_digit(byte),
        ensures
            final(self)@ == old(self)@.exponent_step(byte),
            final(self).well_formed(),
    {
        let digit: usize = (byte - 0x30) as usize;
        if self.exponent_value > (usize::MAX - digit) / 10 {
            self.rejected = true;
        } else {
            self.after_comma = false;
            self.exponent = Exponent::Digits;
            self.exponent_value = self.exponent_value * 10 + digit;
        }
    }

    /// Mirrors [`Scan::outside_step`].
    fn outside_step(&mut self, byte: u8)
        requires
            old(self).well_formed(),
            !old(self).rejected,
        ensures
            final(self)@ == old(self)@.outside_step(byte),
            final(self).well_formed(),
    {
        if byte == QUOTE {
            self.token();
            self.quoting = Quoting::Plain;
            self.string_bytes = 0;
        } else if is_space(byte) {
            self.exponent = Exponent::Outside;
            self.exponent_value = 0;
        } else if byte == COMMA {
            self.token();
            self.after_comma = true;
        } else if byte == OPEN_BRACKET || byte == OPEN_BRACE {
            if self.keys.len() >= MAX_DEPTH {
                self.rejected = true;
            } else {
                let ghost keys = self@.keys.push(0);
                proof {
                    lemma_total_push(self@.keys, 0);
                }
                self.keys.push(0);
                assert(self@.keys == keys);
                self.token();
            }
        } else if byte == CLOSE_BRACE && self.after_comma {
            self.rejected = true;
        } else if byte == CLOSE_BRACKET || byte == CLOSE_BRACE {
            if self.keys.len() > 0 {
                let ghost keys = self@.keys.drop_last();
                let key = self.keys.pop().unwrap();
                self.key_bytes = self.key_bytes - key;
                assert(self@.keys == keys);
            }
            self.token();
        } else if byte == COLON {
            self.key_step();
        } else if is_exponent_marker(byte) {
            self.token();
            self.exponent = Exponent::Marker;
        } else if is_sign(byte) && self.exponent == Exponent::Marker {
            self.token();
            self.exponent = Exponent::Digits;
        } else if is_digit(byte) && self.exponent != Exponent::Outside {
            self.exponent_step(byte);
        } else {
            self.token();
        }
    }

    /// Takes in one more byte.
    fn step(&mut self, byte: u8)
        requires
            old(self).well_formed(),
            !old(self).rejected,
        ensures
            final(self)@ == old(self)@.step(byte),
            final(self).well_formed(),
    {
        if self.quoting == Quoting::Outside {
            self.outside_step(byte);
        } else {
            self.in_string_step(byte);
        }
    }
}

/// Computes [`escape_bytes`].
fn escape_len(unit: u16) -> (count: usize)
    ensures
        count == escape_bytes(unit as nat),
        count <= 4,
{
    if unit < 0x80 {
        1
    } else if unit < 0x800 {
        2
    } else if 0xD800 <= unit && unit < 0xDC00 {
        4
    } else if 0xDC00 <= unit && unit < 0xE000 {
        0
    } else {
        3
    }
}

/// Tells whether `bytes` may be handed to the parser.
pub fn check_limits(bytes: &[u8]) -> (ok: bool)
    ensures
        ok == within_limits(bytes@),
{
    if bytes.len() > MAX_DOCUMENT_LEN {
        return false;
    }
    let mut scanner = Scanner::start();
    let mut done: usize = 0;
    while done < bytes.len() && !scanner.rejected
        invariant
            done <= bytes.len(),
            scanner@ == scan(bytes@.take(done as int)),
            scanner.well_formed(),
        decreases bytes.len() - done,
    {
        assert(bytes@.take(done + 1).drop_last() == bytes@.take(done as int));
        scanner.step(bytes[done]);
        done = done + 1;
    }
    proof {
        if scanner.rejected {
            lemma_rejection_is_final(bytes@, done as int);
        } else {
            assert(bytes@.take(done as int) == bytes@);
        }
    }
    !scanner.rejected
}

} // verus!
