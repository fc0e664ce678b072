use vstd::prelude::*;
use vstd::string::StringSliceAdditionalSpecFns;

verus! {

/// The escape byte that opens an ANSI colour sequence.
pub const ESC: u8 = 0x1b;

/// Severity of a log line. It only picks the tag and the colour of the line.
#[derive(Clone, Copy, Debug, PartialEq, Eq, Structural)]
pub enum Level {
    Error,
    Warn,
    Info,
    Debug,
}

/// ANSI colour code that wraps a line of the given level.
pub open spec fn level_color(level: Level) -> Seq<u8> {
    match level {
        Level::Error => "31".spec_bytes(),
        Level::Warn => "93".spec_bytes(),
        Level::Info => "34".spec_bytes(),
        Level::Debug => "32".spec_bytes(),
    }
}

/// Textual tag of the given level.
pub open spec fn level_tag(level: Level) -> Seq<u8> {
    match level {
        Level::Error => "ERROR".spec_bytes(),
        Level::Warn => "WARN".spec_bytes(),
        Level::Info => "INFO".spec_bytes(),
        Level::Debug => "DEBUG".spec_bytes(),
    }
}

/// What a log line holds before its payload: `ESC [ <colour> m [<TAG>] `.
pub open spec fn line_prefix(level: Level) -> Seq<u8> {
    seq![ESC] + "[".spec_bytes() + level_color(level) + "m[".spec_bytes() + level_tag(level)
        + "] ".spec_bytes()
}

/// What a log line holds after its payload: the colour reset and one newline.
pub open spec fn line_suffix() -> Seq<u8> {
    seq![ESC] + "[0m\n".spec_bytes()
}

/// The bytes of one log line of `level` that carries `payload`.
pub open spec fn log_line(level: Level, payload: Seq<u8>) -> Seq<u8> {
    line_prefix(level) + payload + line_suffix()
}

/// The ASCII digit of value `d` (below sixteen), lower case beyond nine.
pub open spec fn digit_char(d: nat) -> u8 {
    if d < 10 {
        (48 + d) as u8
    } else {
        (87 + d) as u8
    }
}

/// Hexadecimal digits of `n`, most significant first, without leading zeros.
pub open spec fn hex_digits(n: nat) -> Seq<u8>
    decreases n,
{
    if n < 16 {
        seq![digit_char(n)]
    } else {
        hex_digits(n / 16).push(digit_char(n % 16))
    }
}

/// `n` written as `0x` followed by its hexadecimal digits.
pub open spec fn hex_text(n: nat) -> Seq<u8> {
    "0x".spec_bytes() + hex_digits(n)
}

/// Decimal digits of `n`, most significant first, without leading zeros.
pub open spec fn dec_digits(n: nat) -> Seq<u8>
    decreases n,
{
    if n < 10 {
        seq![digit_char(n)]
    } else {
        dec_digits(n / 10).push(digit_char(n % 10))
    }
}

/// The firmware console: a synchronous byte channel. Its view is every byte
/// that has been handed to the channel, in order.
pub struct Console {
    out: Vec<u8>,
}

impl View for Console {
    type V = Seq<u8>;

    closed spec fn view(&self) -> Seq<u8> {
        self.out@
    }
}

fn digit_byte(d: u8) -> (b: u8)
    requires
        d < 16,
    ensures
        b == digit_char(d as nat),
{
    if d < 10 {
        48 + d
    } else {
        87 + d
    }
}

impl Console {
    /// A channel on which nothing has been written yet.
    pub fn new() -> (c: Console)
        ensures
            c@ == Seq::<u8>::empty(),
    {
        Console { out: Vec::new() }
    }

    /// Every byte written so far.
    pub fn bytes(&self) -> (r: &[u8])
        ensures
            r@ == self@,
    {
        self.out.as_slice()
    }

    /// Hands the bytes written so far to the caller and empties the channel.
    pub fn take(&mut self) -> (r: Vec<u8>)
        ensures
            r@ == old(self)@,
            final(self)@ == Seq::<u8>::empty(),
    {
        let mut r = Vec::new();
        r.append(&mut self.out);
        r
    }

    /// Writes one byte.
    pub fn put_byte(&mut self, b: u8)
        ensures
            final(self)@ == old(self)@.push(b),
    {
        self.out.push(b);
    }

    /// Writes each byte of `b` in order.
    pub fn write_bytes(&mut self, b: &[u8])
        ensures
            final(self)@ == old(self)@ + b@,
    {
        let mut i: usize = 0;
        while i < b.len()
            invariant
                i <= b@.len(),
                self@ == old(self)@ + b@.subrange(0, i as int),
            decreases b@.len() - i,
        {
            self.put_byte(b[i]);
            i = i + 1;
            assert(b@.subrange(0, i as int) == b@.subrange(0, i - 1).push(b@[i - 1]));
        }
        assert(b@.subrange(0, i as int) == b@);
    }

    /// Writes the UTF-8 encoding of `s`, with no newline added.
    pub fn write_str(&mut self, s: &str)
        ensures
            final(self)@ == old(self)@ + s.spec_bytes(),
    {
        self.write_bytes(s.as_bytes());
    }

    fn write_hex_digits(&mut self, n: usize)
        ensures
            final(self)@ == old(self)@ + hex_digits(n as nat),
        decreases n,
    {
        if n >= 16 {
            self.write_hex_digits(n / 16);
        }
        self.put_byte(digit_byte((n % 16) as u8));
        assert(n >= 16 ==> old(self)@ + hex_digits((n / 16) as nat) + seq![
            digit_char(n as nat % 16),
        ] =~= old(self)@ + hex_digits(n as nat));
    }

    /// Writes `n` as `0x` followed by its lower-case hexadecimal digits.
    pub fn write_hex(&mut self, n: usize)
        ensures
            final(self)@ == old(self)@ + hex_text(n as nat),
    {
        self.write_str("0x");
        self.write_hex_digits(n);
        assert(old(self)@ + "0x".spec_bytes() + hex_digits(n as nat) =~= old(self)@ + hex_text(
            n as nat,
        ));
    }

    /// Writes the decimal digits of `n`.
    pub fn write_dec(&mut self, n: u32)
        ensures
            final(self)@ == old(self)@ + dec_digits(n as nat),
        decreases n,
    {
        if n >= 10 {
            self.write_dec(n / 10);
        }
        self.put_byte(digit_byte((n % 10) as u8));
        assert(n >= 10 ==> old(self)@ + dec_digits((n / 10) as nat) + seq![
            digit_char(n as nat % 10),
        ] =~= old(self)@ + dec_digits(n as nat));
    }

    /// Opens a log line of `level`: colour, then tag.
    pub fn begin_line(&mut self, level: Level)
        ensures
            final(self)@ == old(self)@ + line_prefix(level),
    {
        self.put_byte(ESC);
        self.write_str("[");
        match level {
            Level::Error => self.write_str("31"),
            Level::Warn => self.write_str("93"),
            Level::Info => self.write_str("34"),
            Level::Debug => self.write_str("32"),
        }
        self.write_str("m[");
        match level {
            Level::Error => self.write_str("ERROR"),
            Level::Warn => self.write_str("WARN"),
            Level::Info => self.write_str("INFO"),
            Level::Debug => self.write_str("DEBUG"),
        }
        self.write_str("] ");
        assert(self@ =~= old(self)@ + line_prefix(level));
    }

    /// Closes a log line: colour reset and exactly one newline.
    pub fn end_line(&mut self)
        ensures
            final(self)@ == old(self)@ + line_suffix(),
    {
        self.put_byte(ESC);
        self.write_str("[0m\n");
        assert(self@ =~= old(self)@ + line_suffix());
    }

    /// Writes one log line of `level` that carries `payload`.
    pub fn log(&mut self, level: Level, payload: &[u8])
        ensures
            final(self)@ == old(self)@ + log_line(level, payload@),
    {
        self.begin_line(level);
        self.write_bytes(payload);
        self.end_line();
        assert(self@ =~= old(self)@ + log_line(level, payload@));
    }
}

} // verus!
