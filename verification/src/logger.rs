//! The observability sink: best-effort display of forwarded bytes.

use vstd::prelude::*;

verus! {

/// Whether an ASCII alphanumeric byte: `0-9`, `A-Z` or `a-z`.
pub open spec fn is_alphanumeric_byte(b: u8) -> bool {
    (0x30 <= b && b <= 0x39) || (0x41 <= b && b <= 0x5a) || (0x61 <= b && b <= 0x7a)
}

/// Whether an ASCII punctuation byte: `!-/`, `:-@`, `[-\u{60}` or `{-~`.
pub open spec fn is_punctuation_byte(b: u8) -> bool {
    (0x21 <= b && b <= 0x2f) || (0x3a <= b && b <= 0x40) || (0x5b <= b && b <= 0x60) || (0x7b <= b
        && b <= 0x7e)
}

/// Whether an ASCII whitespace byte: space, horizontal tab, line feed, form
/// feed or carriage return.
pub open spec fn is_whitespace_byte(b: u8) -> bool {
    b == 0x20 || b == 0x09 || b == 0x0a || b == 0x0c || b == 0x0d
}

/// Whether a byte is printed as a literal character by the sink.
pub open spec fn is_displayable_byte(b: u8) -> bool {
    is_alphanumeric_byte(b) || is_punctuation_byte(b) || is_whitespace_byte(b)
}

/// The lower-case hexadecimal digit for a value below sixteen.
pub open spec fn hex_digit(n: u8) -> u8
    recommends
        n < 16,
{
    if n < 10 {
        (0x30 + n) as u8
    } else {
        (0x57 + n) as u8
    }
}

/// How the sink renders one byte: the byte itself where it is displayable,
/// and the two-digit hexadecimal escape `\xhh` otherwise.
pub open spec fn rendered_byte(b: u8) -> Seq<u8> {
    if is_displayable_byte(b) {
        seq![b]
    } else {
        seq![0x5cu8, 0x78u8, hex_digit(b / 16), hex_digit(b % 16)]
    }
}

/// How the sink renders a buffer: each byte in order.
pub open spec fn rendered(data: Seq<u8>) -> Seq<u8>
    decreases data.len(),
{
    if data.len() == 0 {
        Seq::empty()
    } else {
        rendered_byte(data[0]) + rendered(data.skip(1))
    }
}

/// Rendering a buffer extended by one byte appends that byte's rendering.
pub proof fn lemma_rendered_push(data: Seq<u8>, b: u8)
    ensures
        rendered(data.push(b)) == rendered(data) + rendered_byte(b),
    decreases data.len(),
{
    if data.len() == 0 {
        assert(data.push(b).skip(1) =~= Seq::<u8>::empty());
        assert(data.push(b)[0] == b);
        assert(rendered(data.push(b)) == rendered_byte(b) + rendered(Seq::<u8>::empty()));
        assert(rendered(data.push(b)) =~= rendered(data) + rendered_byte(b));
    } else {
        assert(data.push(b).skip(1) =~= data.skip(1).push(b));
        assert(data.push(b)[0] == data[0]);
        lemma_rendered_push(data.skip(1), b);
        assert(rendered(data.push(b)) == rendered_byte(data[0]) + (rendered(data.skip(1))
            + rendered_byte(b)));
        assert(rendered(data.push(b)) =~= rendered(data) + rendered_byte(b));
    }
}

/// Whether the sink prints the byte as a literal character.
fn displayable(b: u8) -> (r: bool)
    ensures
        r == is_displayable_byte(b),
{
    let alphanumeric = (0x30 <= b && b <= 0x39) || (0x41 <= b && b <= 0x5a) || (0x61 <= b && b
        <= 0x7a);
    let punctuation = (0x21 <= b && b <= 0x2f) || (0x3a <= b && b <= 0x40) || (0x5b <= b && b
        <= 0x60) || (0x7b <= b && b <= 0x7e);
    let whitespace = b == 0x20 || b == 0x09 || b == 0x0a || b == 0x0c || b == 0x0d;
    alphanumeric || punctuation || whitespace
}

/// Renders a buffer the way the sink displays it: displayable bytes stand as
/// they are, every other byte becomes a two-digit hexadecimal escape.
pub fn render(data: &[u8]) -> (r: Vec<u8>)
    ensures
        r@ == rendered(data@),
{
    let mut out: Vec<u8> = Vec::new();
    let mut i: usize = 0;
    while i < data.len()
        invariant
            i <= data@.len(),
            out@ == rendered(data@.take(i as int)),
        decreases data@.len() - i,
    {
        let b = *vstd::slice::slice_index_get(data, i);
        if displayable(b) {
            out.push(b);
        } else {
            out.push(0x5c);
            out.push(0x78);
            out.push(hex_digit_of(b / 16));
            out.push(hex_digit_of(b % 16));
        }
        proof {
            assert(data@.take(i + 1 as int) =~= data@.take(i as int).push(data@[i as int]));
            lemma_rendered_push(data@.take(i as int), data@[i as int]);
            assert(out@ =~= rendered(data@.take(i + 1 as int)));
        }
        i = i + 1;
    }
    proof {
        assert(data@.take(data@.len() as int) =~= data@);
    }
    out
}

/// The lower-case hexadecimal digit for a value below sixteen.
fn hex_digit_of(n: u8) -> (r: u8)
    requires
        n < 16,
    ensures
        r == hex_digit(n),
{
    if n < 10 {
        0x30 + n
    } else {
        0x57 + n
    }
}

/// Relies on `std::io::Write::write_all` on the process's standard output:
/// best-effort display of the rendered bytes; a failure is ignored and never
/// reaches the caller.
#[verifier::external_body]
fn write_stdout(data: &Vec<u8>) {
    let _ = std::io::Write::write_all(&mut std::io::stdout(), data.as_slice());
}

/// The observability sink. It receives raw byte buffers for display and
/// never fails its caller.
#[derive(Debug, Clone, Copy)]
pub struct Logger {
    _private: (),
}

impl Logger {
    /// Creates a new logger.
    pub fn new() -> (r: Logger) {
        Logger { _private: () }
    }

    /// The logger attached to a run: present exactly when logging is
    /// enabled in the configuration.
    pub fn if_enabled(enabled: bool) -> (r: Option<Logger>)
        ensures
            r is Some <==> enabled,
    {
        if enabled {
            Some(Logger::new())
        } else {
            None
        }
    }

    /// Displays the buffer on the standard output, rendered byte for byte.
    pub fn log(&self, data: &[u8]) {
        let text = render(data);
        write_stdout(&text);
    }
}

/// Logs the data if a logger is available.
pub fn log_if_enabled(logger: &Option<Logger>, data: &[u8]) {
    if let Some(logger) = logger {
        logger.log(data);
    }
}

} // verus!
