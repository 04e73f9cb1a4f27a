//! What the panic handler shows: the location of the panic, then its
//! message.
//!
//! The handler itself prints and then halts; this module decides what is
//! printed. Two reports are offered, as the runtime has two handlers: one
//! made of calls to the BIOS `printf`, and one drawn on screen with the
//! font printer.
//!
//! A panic may come from the heap running out, so nothing here allocates:
//! each report is handed out one call at a time, by its index, and every
//! call borrows its text from the literals of this module, the file's name
//! or the message.

use vstd::prelude::*;
use vstd::string::StringSliceAdditionalSpecFns;

verus! {

broadcast use vstd::string::is_ascii_spec_bytes;

/// The bytes of an ASCII text.
pub open spec fn ascii_bytes(s: Seq<char>) -> Seq<u8> {
    Seq::new(s.len(), |i: int| s[i] as u8)
}

/// A C string: text followed by one terminating NUL and no NUL before it.
pub open spec fn is_c_string(s: Seq<u8>) -> bool {
    &&& s.len() > 0
    &&& s.last() == 0
    &&& forall|i: int| 0 <= i < s.len() - 1 ==> s[i] != 0
}

/// The message shown when the panic's message cannot be had as plain text
/// (it was built from formatted arguments).
pub open spec fn default_message_bytes() -> Seq<u8> {
    ascii_bytes("Panic message contained formatted arguments\0"@)
}

/// Where a panic happened: the source file's name, line and column.
pub struct PanicLocation<'a> {
    pub file: &'a [u8],
    pub line: u32,
    pub column: u32,
}

impl<'a> View for PanicLocation<'a> {
    type V = (Seq<u8>, u32, u32);

    open spec fn view(&self) -> (Seq<u8>, u32, u32) {
        (self.file@, self.line, self.column)
    }
}

/// The location, if known, as plain values.
pub open spec fn location_view<'a>(location: Option<PanicLocation<'a>>) -> Option<(Seq<u8>, u32, u32)> {
    match location {
        Some(loc) => Some(loc@),
        None => None,
    }
}

/// The integers that a call formats: none, or a line and a column.
pub open spec fn args_view(args: Option<(u32, u32)>) -> Seq<u32> {
    match args {
        Some((a, b)) => seq![a, b],
        None => Seq::empty(),
    }
}

/// One call of the BIOS `printf`: the bytes of its format and the integers
/// that it formats.
pub struct PrintfCall<'a> {
    pub format: &'a [u8],
    pub args: Option<(u32, u32)>,
}

impl<'a> View for PrintfCall<'a> {
    type V = (Seq<u8>, Seq<u32>);

    open spec fn view(&self) -> (Seq<u8>, Seq<u32>) {
        (self.format@, args_view(self.args))
    }
}

/// The format that introduces a known location.
pub open spec fn location_format() -> Seq<u8> {
    ascii_bytes("Panicked at \0"@)
}

/// The format that prints `:line:column` and ends the location's line.
pub open spec fn position_format() -> Seq<u8> {
    ascii_bytes(":%d:%d\n\0"@)
}

/// The format printed when the location is unknown.
pub open spec fn unknown_location_format() -> Seq<u8> {
    ascii_bytes("Panicked at unknown location\n\0"@)
}

/// The format that ends the report.
pub open spec fn end_format() -> Seq<u8> {
    ascii_bytes("\n\0"@)
}

/// The `printf` calls of a panic report, in order: the location (or that it
/// is unknown), the message, and a final newline. The file's name and the
/// message are handed to `printf` as they are.
pub open spec fn spec_printf_report(
    location: Option<(Seq<u8>, u32, u32)>,
    message: Seq<u8>,
) -> Seq<(Seq<u8>, Seq<u32>)> {
    let head = match location {
        Some((file, line, column)) => seq![
            (location_format(), Seq::<u32>::empty()),
            (file, Seq::<u32>::empty()),
            (position_format(), seq![line, column]),
        ],
        None => seq![(unknown_location_format(), Seq::<u32>::empty())],
    };
    head + seq![(message, Seq::<u32>::empty()), (end_format(), Seq::<u32>::empty())]
}

/// The bytes of an ASCII literal.
fn literal(s: &'static str) -> (b: &'static [u8])
    requires
        s.is_ascii(),
    ensures
        b@ == ascii_bytes(s@),
{
    s.as_bytes()
}

/// The panic's message as bytes: its text where it has one as plain text,
/// else the default message.
pub fn message<'a>(text: Option<&'a str>) -> (m: &'a [u8])
    ensures
        m@ == match text {
            Some(t) => t.spec_bytes(),
            None => default_message_bytes(),
        },
        text is None ==> m@ == ascii_bytes("Panic message contained formatted arguments\0"@),
{
    match text {
        Some(t) => t.as_bytes(),
        None => {
            proof {
                reveal_strlit("Panic message contained formatted arguments\0");
            }
            literal("Panic message contained formatted arguments\0")
        },
    }
}

/// Call number `i` (counting from 0) of the `printf` report of a panic at
/// `location` with `message`, or `None` once the report is over.
pub fn printf_call<'a>(location: &Option<PanicLocation<'a>>, message: &'a [u8], i: usize) -> (c:
    Option<PrintfCall<'a>>)
    ensures
        match c {
            Some(call) => i < spec_printf_report(location_view(*location), message@).len()
                && call@ == spec_printf_report(location_view(*location), message@)[i as int],
            None => i >= spec_printf_report(location_view(*location), message@).len(),
        },
        location matches Some(loc) ==> {
            &&& i == 0 ==> (c matches Some(call) && call.format@ == ascii_bytes("Panicked at \0"@)
                && call.args is None)
            &&& i == 1 ==> (c matches Some(call) && call.format@ == loc.file@ && call.args is None)
            &&& i == 2 ==> (c matches Some(call) && call.format@ == ascii_bytes(":%d:%d\n\0"@)
                && call.args == Some((loc.line, loc.column)))
            &&& i == 3 ==> (c matches Some(call) && call.format@ == message@ && call.args is None)
            &&& i == 4 ==> (c matches Some(call) && call.format@ == ascii_bytes("\n\0"@)
                && call.args is None)
            &&& i >= 5 ==> c is None
        },
        location is None ==> {
            &&& i == 0 ==> (c matches Some(call) && call.format@ == ascii_bytes(
                "Panicked at unknown location\n\0"@,
            ) && call.args is None)
            &&& i == 1 ==> (c matches Some(call) && call.format@ == message@ && call.args is None)
            &&& i == 2 ==> (c matches Some(call) && call.format@ == ascii_bytes("\n\0"@)
                && call.args is None)
            &&& i >= 3 ==> c is None
        },
{
    proof {
        reveal_strlit("Panicked at \0");
        reveal_strlit(":%d:%d\n\0");
        reveal_strlit("Panicked at unknown location\n\0");
        reveal_strlit("\n\0");
    }
    match location {
        Some(loc) => {
            if i == 0 {
                Some(PrintfCall { format: literal("Panicked at \0"), args: None })
            } else if i == 1 {
                Some(PrintfCall { format: loc.file, args: None })
            } else if i == 2 {
                Some(PrintfCall { format: literal(":%d:%d\n\0"), args: Some((loc.line, loc.column)) })
            } else if i == 3 {
                Some(PrintfCall { format: message, args: None })
            } else if i == 4 {
                Some(PrintfCall { format: literal("\n\0"), args: None })
            } else {
                None
            }
        },
        None => {
            if i == 0 {
                Some(PrintfCall { format: literal("Panicked at unknown location\n\0"), args: None })
            } else if i == 1 {
                Some(PrintfCall { format: message, args: None })
            } else if i == 2 {
                Some(PrintfCall { format: literal("\n\0"), args: None })
            } else {
                None
            }
        },
    }
}

/// The video standard of the panic screen.
pub enum VideoMode {
    NTSC,
    PAL,
}

/// The color depth of the panic screen.
pub enum Depth {
    Low,
    High,
}

/// How the screen is set up to show a panic: two framebuffers side by side
/// in VRAM, the display resolution and mode, the area that the font
/// printer draws in, and the background colors (as red, green and blue) of
/// the framebuffers and of the printer, where they get one.
pub struct PanicScreen {
    pub display_buffer: (i16, i16),
    pub draw_buffer: (i16, i16),
    pub resolution: (i16, i16),
    pub video_mode: VideoMode,
    pub depth: Depth,
    pub interlaced: bool,
    pub text_origin: (i16, i16),
    pub text_offset: (i16, i16),
    pub text_size: (i16, i16),
    pub framebuffer_background: Option<(u8, u8, u8)>,
    pub text_background: Option<(u8, u8, u8)>,
}

/// One call of the font printer: its text, the integers that fill the
/// text's `{}` placeholders, and whether it ends the line.
pub struct PrinterCall<'a> {
    pub text: &'a [u8],
    pub args: Option<(u32, u32)>,
    pub newline: bool,
}

impl<'a> View for PrinterCall<'a> {
    type V = (Seq<u8>, Seq<u32>, bool);

    open spec fn view(&self) -> (Seq<u8>, Seq<u32>, bool) {
        (self.text@, args_view(self.args), self.newline)
    }
}

/// The screen set up for a panic: 320 by 240 pixels, NTSC, high color depth,
/// not interlaced, the framebuffers at (0, 0) and (0, 240), and the printer
/// drawing over the whole displayed area from its top left corner; neither
/// the framebuffers nor the printer get a background color.
pub open spec fn spec_panic_screen(s: PanicScreen) -> bool {
    &&& s.display_buffer == (0i16, 0i16)
    &&& s.draw_buffer == (0i16, 240i16)
    &&& s.resolution == (320i16, 240i16)
    &&& s.video_mode is NTSC
    &&& s.depth is High
    &&& !s.interlaced
    &&& s.text_origin == (0i16, 0i16)
    &&& s.text_offset == (0i16, 0i16)
    &&& s.text_size == (320i16, 240i16)
    &&& s.framebuffer_background is None
    &&& s.text_background is None
}

/// The printer calls of a panic drawn on screen: the location (or that it is
/// unknown) on one line, then the message on a line of its own.
pub open spec fn spec_pretty_report(
    location: Option<(Seq<u8>, u32, u32)>,
    message: Seq<u8>,
) -> Seq<(Seq<u8>, Seq<u32>, bool)> {
    let head = match location {
        Some((file, line, column)) => seq![
            (ascii_bytes("Panicked at "@), Seq::<u32>::empty(), false),
            (file, Seq::<u32>::empty(), false),
            (ascii_bytes(":{}:{}"@), seq![line, column], true),
        ],
        None => seq![(ascii_bytes("Panicked at unknown location"@), Seq::<u32>::empty(), true)],
    };
    head + seq![(message, Seq::<u32>::empty(), true)]
}

/// How the screen is set up to show a panic.
pub fn panic_screen() -> (s: PanicScreen)
    ensures
        spec_panic_screen(s),
        s.display_buffer == (0i16, 0i16),
        s.draw_buffer == (0i16, 240i16),
        s.resolution == (320i16, 240i16),
        s.video_mode is NTSC,
        s.depth is High,
        !s.interlaced,
        s.text_origin == (0i16, 0i16),
        s.text_offset == (0i16, 0i16),
        s.text_size == (320i16, 240i16),
        s.framebuffer_background is None,
        s.text_background is None,
{
    let zero: (i16, i16) = (0, 0);
    let res: (i16, i16) = (320, 240);
    PanicScreen {
        display_buffer: zero,
        draw_buffer: (0, 240),
        resolution: res,
        video_mode: VideoMode::NTSC,
        depth: Depth::High,
        interlaced: false,
        text_origin: zero,
        text_offset: zero,
        text_size: res,
        framebuffer_background: None,
        text_background: None,
    }
}

/// Printer call number `i` (counting from 0) of a panic at `location` with
/// `message` drawn on screen, or `None` once the report is over.
pub fn pretty_call<'a>(location: &Option<PanicLocation<'a>>, message: &'a [u8], i: usize) -> (c:
    Option<PrinterCall<'a>>)
    ensures
        match c {
            Some(call) => i < spec_pretty_report(location_view(*location), message@).len()
                && call@ == spec_pretty_report(location_view(*location), message@)[i as int],
            None => i >= spec_pretty_report(location_view(*location), message@).len(),
        },
        location matches Some(loc) ==> {
            &&& i == 0 ==> (c matches Some(call) && call.text@ == ascii_bytes("Panicked at "@)
                && call.args is None && !call.newline)
            &&& i == 1 ==> (c matches Some(call) && call.text@ == loc.file@ && call.args is None
                && !call.newline)
            &&& i == 2 ==> (c matches Some(call) && call.text@ == ascii_bytes(":{}:{}"@)
                && call.args == Some((loc.line, loc.column)) && call.newline)
            &&& i == 3 ==> (c matches Some(call) && call.text@ == message@ && call.args is None
                && call.newline)
            &&& i >= 4 ==> c is None
        },
        location is None ==> {
            &&& i == 0 ==> (c matches Some(call) && call.text@ == ascii_bytes(
                "Panicked at unknown location"@,
            ) && call.args is None && call.newline)
            &&& i == 1 ==> (c matches Some(call) && call.text@ == message@ && call.args is None
                && call.newline)
            &&& i >= 2 ==> c is None
        },
{
    proof {
        reveal_strlit("Panicked at ");
        reveal_strlit(":{}:{}");
        reveal_strlit("Panicked at unknown location");
    }
    match location {
        Some(loc) => {
            if i == 0 {
                Some(PrinterCall { text: literal("Panicked at "), args: None, newline: false })
            } else if i == 1 {
                Some(PrinterCall { text: loc.file, args: None, newline: false })
            } else if i == 2 {
                Some(
                    PrinterCall {
                        text: literal(":{}:{}"),
                        args: Some((loc.line, loc.column)),
                        newline: true,
                    },
                )
            } else if i == 3 {
                Some(PrinterCall { text: message, args: None, newline: true })
            } else {
                None
            }
        },
        None => {
            if i == 0 {
                Some(
                    PrinterCall {
                        text: literal("Panicked at unknown location"),
                        args: None,
                        newline: true,
                    },
                )
            } else if i == 1 {
                Some(PrinterCall { text: message, args: None, newline: true })
            } else {
                None
            }
        },
    }
}

/// A panic report names the location (or says that it is unknown), then
/// gives the message unchanged, then ends the line; a known location is
/// reported as its file's name followed by its line and column.
pub proof fn lemma_printf_report_shape(location: Option<(Seq<u8>, u32, u32)>, message: Seq<u8>)
    ensures
        ({
            let r = spec_printf_report(location, message);
            &&& r.len() == if location is Some { 5int } else { 3int }
            &&& r[r.len() - 2] == (message, Seq::<u32>::empty())
            &&& r[r.len() - 1] == (end_format(), Seq::<u32>::empty())
            &&& match location {
                Some((file, line, column)) => {
                    &&& r[0] == (location_format(), Seq::<u32>::empty())
                    &&& r[1] == (file, Seq::<u32>::empty())
                    &&& r[2] == (position_format(), seq![line, column])
                },
                None => r[0] == (unknown_location_format(), Seq::<u32>::empty()),
            }
        }),
{
}

/// Every format that the report writes itself is a C string, as the BIOS
/// `printf` expects; only the file's name and the message are handed on as
/// they came.
pub proof fn lemma_printf_formats_are_c_strings(
    location: Option<(Seq<u8>, u32, u32)>,
    message: Seq<u8>,
)
    ensures
        forall|i: int|
            0 <= i < spec_printf_report(location, message).len() ==> {
                let f = #[trigger] spec_printf_report(location, message)[i].0;
                ||| f == message
                ||| location matches Some((file, _, _)) && f == file
                ||| is_c_string(f)
            },
        is_c_string(default_message_bytes()),
{
    lemma_literals_are_c_strings();
    let r = spec_printf_report(location, message);
    assert forall|i: int| 0 <= i < r.len() implies {
        let f = #[trigger] r[i].0;
        ||| f == message
        ||| location matches Some((file, _, _)) && f == file
        ||| is_c_string(f)
    } by {
        if location is Some {
            assert(0 <= i < 5);
        } else {
            assert(0 <= i < 3);
        }
    }
}

/// The report drawn on screen and the report made with `printf` carry the
/// same things: the same file's name, line and column where the location is
/// known, and the same message, which ends both.
pub proof fn lemma_reports_agree(location: Option<(Seq<u8>, u32, u32)>, message: Seq<u8>)
    ensures
        ({
            let p = spec_printf_report(location, message);
            let s = spec_pretty_report(location, message);
            &&& s.len() == p.len() - 1
            &&& s.last().0 == message
            &&& p[p.len() - 2].0 == message
            &&& location is Some ==> {
                &&& s[1].0 == p[1].0
                &&& s[2].1 == p[2].1
            }
        }),
{
}

/// The number of `{}` placeholders in a printer text.
pub open spec fn placeholder_count(t: Seq<u8>) -> nat
    decreases t.len(),
{
    if t.len() < 2 {
        0
    } else {
        (if t[0] == 123u8 && t[1] == 125u8 { 1nat } else { 0nat }) + placeholder_count(
            t.drop_first(),
        )
    }
}

/// On screen, a known location is one line: "Panicked at ", the file's
/// name and ":line:column", where the two placeholders are filled with the
/// line and the column; only that last piece ends the line, and the message
/// follows on a line of its own. No call fills in more or fewer integers
/// than its text has placeholders.
pub proof fn lemma_pretty_location_is_one_line(
    file: Seq<u8>,
    line: u32,
    column: u32,
    message: Seq<u8>,
)
    ensures
        ({
            let s = spec_pretty_report(Some((file, line, column)), message);
            &&& s.len() == 4
            &&& !s[0].2 && !s[1].2 && s[2].2 && s[3].2
            &&& s[0].0 + s[1].0 + s[2].0 == ascii_bytes("Panicked at "@) + file + ascii_bytes(
                ":{}:{}"@,
            )
            &&& s[2].1 == seq![line, column]
            &&& placeholder_count(s[0].0) == s[0].1.len() == 0
            &&& placeholder_count(s[2].0) == s[2].1.len() == 2
            &&& s[3] == (message, Seq::<u32>::empty(), true)
        }),
{
    reveal_strlit("Panicked at ");
    reveal_strlit(":{}:{}");
    let s = spec_pretty_report(Some((file, line, column)), message);
    let t0 = ascii_bytes("Panicked at "@);
    let t2 = ascii_bytes(":{}:{}"@);
    assert(t0 =~= seq![80u8, 97, 110, 105, 99, 107, 101, 100, 32, 97, 116, 32]);
    assert(t2 =~= seq![58u8, 123, 125, 58, 123, 125]);
    reveal_with_fuel(placeholder_count, 13);
    assert(t0.drop_first() =~= seq![97u8, 110, 105, 99, 107, 101, 100, 32, 97, 116, 32]);
    assert(t2.drop_first() =~= seq![123u8, 125, 58, 123, 125]);
    assert(t2.drop_first().drop_first() =~= seq![125u8, 58, 123, 125]);
    assert(placeholder_count(seq![123u8, 125]) == 1);
    assert(seq![58u8, 123, 125].drop_first() =~= seq![123u8, 125]);
    assert(seq![125u8, 58, 123, 125].drop_first() =~= seq![58u8, 123, 125]);
    assert(placeholder_count(t2) == 2);
    assert(placeholder_count(t0) == 0);
}

/// The on-screen report breaks its lines where the `printf` report's
/// formats hold a newline, and fills in the same integers, call by call; the
/// message, which `printf` is handed as it is, always ends a line on screen.
/// (A file name that holds a newline is left out: the `printf` report then
/// breaks the line inside it, while the screen does not.)
pub proof fn lemma_pretty_lines_follow_printf(
    location: Option<(Seq<u8>, u32, u32)>,
    message: Seq<u8>,
)
    requires
        location matches Some((file, _, _)) ==> !file.contains(10u8),
    ensures
        ({
            let p = spec_printf_report(location, message);
            let s = spec_pretty_report(location, message);
            &&& forall|i: int|
                0 <= i < s.len() - 1 ==> (#[trigger] s[i].2 <==> p[i].0.contains(10u8))
                    && s[i].1 == p[i].1
            &&& s.last().2
            &&& s.last().0 == message
        }),
{
    reveal_strlit("Panicked at \0");
    reveal_strlit(":%d:%d\n\0");
    reveal_strlit("Panicked at unknown location\n\0");
    let p = spec_printf_report(location, message);
    let s = spec_pretty_report(location, message);
    let h = location_format();
    let q = position_format();
    let u = unknown_location_format();
    assert(h =~= seq![80u8, 97, 110, 105, 99, 107, 101, 100, 32, 97, 116, 32, 0]);
    assert(q =~= seq![58u8, 37, 100, 58, 37, 100, 10, 0]);
    assert(q[6] == 10u8);
    assert(q.contains(10u8));
    assert(!h.contains(10u8));
    let ul = u.len();
    assert(u[ul - 2] == 10u8);
    assert(u.contains(10u8));
}

proof fn lemma_literals_are_c_strings()
    ensures
        is_c_string(location_format()),
        is_c_string(position_format()),
        is_c_string(unknown_location_format()),
        is_c_string(end_format()),
        is_c_string(default_message_bytes()),
{
    reveal_strlit("Panicked at \0");
    reveal_strlit(":%d:%d\n\0");
    reveal_strlit("Panicked at unknown location\n\0");
    reveal_strlit("\n\0");
    reveal_strlit("Panic message contained formatted arguments\0");
}

} // verus!
