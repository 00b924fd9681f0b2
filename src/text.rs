use vstd::prelude::*;
use vstd::string::*;

verus! {

/// Terminal style of a piece of text.
#[derive(Clone, Copy, Debug, PartialEq, Eq)]
pub enum Paint {
    Plain,
    Cyan,
    Green,
    Red,
    Yellow,
    Bold,
    GreenBold,
    BrightCyanBold,
    BrightGreenBold,
    BrightMagentaBold,
    BrightYellowBold,
    WhiteOnBlue,
    WhiteOnRed,
    BlackOnGreen,
    BlackOnCyan,
}

/// A run of text in one style.
pub struct Span {
    pub text: String,
    pub paint: Paint,
}

impl View for Span {
    type V = (Seq<char>, Paint);

    open spec fn view(&self) -> (Seq<char>, Paint) {
        (self.text@, self.paint)
    }
}

/// A piece of terminal output: styled text and control sequences, in order.
pub struct Frame {
    pub spans: Vec<Span>,
}

impl View for Frame {
    type V = Seq<(Seq<char>, Paint)>;

    open spec fn view(&self) -> Seq<(Seq<char>, Paint)> {
        self.spans@.map_values(|s: Span| s@)
    }
}


pub open spec fn plain(s: Seq<char>) -> (Seq<char>, Paint) {
    (s, Paint::Plain)
}

/// Decimal digit character for `d < 10`.
pub open spec fn digit(d: nat) -> char {
    seq!['0', '1', '2', '3', '4', '5', '6', '7', '8', '9'][d as int]
}

/// Decimal notation of `n`, without leading zeros.
pub open spec fn dec(n: nat) -> Seq<char>
    decreases n,
{
    if n < 10 {
        seq![digit(n)]
    } else {
        dec(n / 10).push(digit(n % 10))
    }
}

/// `n < 100` as two digits.
pub open spec fn two_digits(n: nat) -> Seq<char> {
    if n < 10 {
        seq!['0'] + dec(n)
    } else {
        dec(n)
    }
}

/// Microseconds as milliseconds with two decimals, rounded half up.
pub open spec fn millis_text(us: nat) -> Seq<char> {
    let h = (us + 5) / 10;
    dec(h / 100) + seq!['.'] + two_digits(h % 100)
}

/// Tenths of a percent as a percentage with one decimal.
pub open spec fn percent_text(tenths: nat) -> Seq<char> {
    dec(tenths / 10) + seq!['.'] + dec(tenths % 10)
}

fn digit_str(d: u64) -> (r: &'static str)
    requires
        d < 10,
    ensures
        r@ == seq![digit(d as nat)],
{
    if d == 0 {
        proof { reveal_strlit("0"); }
        "0"
    } else if d == 1 {
        proof { reveal_strlit("1"); }
        "1"
    } else if d == 2 {
        proof { reveal_strlit("2"); }
        "2"
    } else if d == 3 {
        proof { reveal_strlit("3"); }
        "3"
    } else if d == 4 {
        proof { reveal_strlit("4"); }
        "4"
    } else if d == 5 {
        proof { reveal_strlit("5"); }
        "5"
    } else if d == 6 {
        proof { reveal_strlit("6"); }
        "6"
    } else if d == 7 {
        proof { reveal_strlit("7"); }
        "7"
    } else if d == 8 {
        proof { reveal_strlit("8"); }
        "8"
    } else {
        proof { reveal_strlit("9"); }
        "9"
    }
}

/// Appends the decimal notation of `n`.
pub fn push_dec(out: &mut String, n: u64)
    ensures
        final(out)@ == old(out)@ + dec(n as nat),
    decreases n,
{
    if n >= 10 {
        push_dec(out, n / 10);
    }
    out.append(digit_str(n % 10));
    assert(final(out)@ =~= old(out)@ + dec(n as nat));
}

/// Decimal notation of `n`.
pub fn dec_string(n: u64) -> (r: String)
    ensures
        r@ == dec(n as nat),
{
    let mut s = String::new();
    push_dec(&mut s, n);
    assert(s@ =~= dec(n as nat));
    s
}

/// Appends `us` microseconds as milliseconds with two decimals.
pub fn push_millis(out: &mut String, us: u64)
    ensures
        final(out)@ == old(out)@ + millis_text(us as nat),
{
    let h: u128 = (us as u128 + 5) / 10;
    push_dec(out, (h / 100) as u64);
    out.append(".");
    let frac: u64 = (h % 100) as u64;
    if frac < 10 {
        out.append("0");
    }
    push_dec(out, frac);
    proof {
        reveal_strlit(".");
        reveal_strlit("0");
    }
    assert(final(out)@ =~= old(out)@ + millis_text(us as nat));
}

/// Appends tenths of a percent as a percentage with one decimal.
pub fn push_percent(out: &mut String, tenths: u64)
    ensures
        final(out)@ == old(out)@ + percent_text(tenths as nat),
{
    push_dec(out, tenths / 10);
    out.append(".");
    push_dec(out, tenths % 10);
    proof {
        reveal_strlit(".");
    }
    assert(final(out)@ =~= old(out)@ + percent_text(tenths as nat));
}

impl Frame {
    pub fn new() -> (f: Frame)
        ensures
            f@ == Seq::<(Seq<char>, Paint)>::empty(),
    {
        let f = Frame { spans: Vec::new() };
        assert(f@ =~= Seq::<(Seq<char>, Paint)>::empty());
        f
    }

    pub fn push(&mut self, s: Span)
        ensures
            final(self)@ == old(self)@.push(s@),
    {
        self.spans.push(s);
        assert(final(self)@ =~= old(self)@.push(s@));
    }

    /// Appends literal text in the given style.
    pub fn text(&mut self, t: &str, paint: Paint)
        ensures
            final(self)@ == old(self)@.push((t@, paint)),
    {
        self.push(Span { text: String::from_str(t), paint });
    }

    /// Appends owned text in the given style.
    pub fn string(&mut self, t: String, paint: Paint)
        ensures
            final(self)@ == old(self)@.push((t@, paint)),
    {
        self.push(Span { text: t, paint });
    }
}

} // verus!
