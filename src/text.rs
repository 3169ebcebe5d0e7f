use vstd::prelude::*;

verus! {

/// A character with the Unicode `White_Space` property (25 code points).
pub open spec fn is_white_space(c: char) -> bool {
    let u = c as u32;
    (0x9 <= u <= 0xD) || u == 0x20 || u == 0x85 || u == 0xA0 || u == 0x1680 || (0x2000 <= u
        <= 0x200A) || u == 0x2028 || u == 0x2029 || u == 0x202F || u == 0x205F || u == 0x3000
}

/// `s` without its leading white space.
pub open spec fn trim_front(s: Seq<char>) -> Seq<char>
    decreases s.len(),
{
    if s.len() > 0 && is_white_space(s[0]) {
        trim_front(s.drop_first())
    } else {
        s
    }
}

/// `s` without its trailing white space.
pub open spec fn trim_back(s: Seq<char>) -> Seq<char>
    decreases s.len(),
{
    if s.len() > 0 && is_white_space(s.last()) {
        trim_back(s.drop_last())
    } else {
        s
    }
}

/// What `str::trim` leaves of a string: the characters with leading and
/// trailing Unicode white space removed.
pub open spec fn trimmed(s: Seq<char>) -> Seq<char> {
    trim_back(trim_front(s))
}

proof fn lemma_trim_front_start(s: Seq<char>)
    ensures
        trim_front(s).len() == 0 || !is_white_space(trim_front(s)[0]),
    decreases s.len(),
{
    if s.len() > 0 && is_white_space(s[0]) {
        lemma_trim_front_start(s.drop_first());
    }
}

proof fn lemma_trim_back_shape(s: Seq<char>)
    ensures
        trim_back(s).len() <= s.len(),
        trim_back(s) == s.subrange(0, trim_back(s).len() as int),
        trim_back(s).len() == 0 || !is_white_space(trim_back(s).last()),
    decreases s.len(),
{
    if s.len() > 0 && is_white_space(s.last()) {
        lemma_trim_back_shape(s.drop_last());
        assert(s.drop_last().subrange(0, trim_back(s).len() as int) =~= s.subrange(
            0,
            trim_back(s).len() as int,
        ));
    } else {
        assert(s.subrange(0, s.len() as int) =~= s);
    }
}

/// Trimming a trimmed string changes nothing.
pub proof fn lemma_trimmed_is_stable(s: Seq<char>)
    ensures
        trimmed(trimmed(s)) == trimmed(s),
{
    let y = trim_front(s);
    let t = trim_back(y);
    lemma_trim_front_start(s);
    lemma_trim_back_shape(y);
    if t.len() > 0 {
        assert(t[0] == y[0]);
    }
    assert(trim_front(t) == t);
    lemma_trim_back_shape(t);
    assert(trim_back(t) == t);
}

/// Sanitising a stored project label again leaves it as it is.
pub proof fn law_sanitized_name_is_stable(name: Seq<char>)
    ensures
        sanitized_name(sanitized_name(name)) == sanitized_name(name),
{
    lemma_trimmed_is_stable(name);
    if trimmed(name).len() == 0 {
        reveal_strlit("Untitled Task");
        let u = "Untitled Task"@;
        assert(!is_white_space(u[0]));
        assert(trim_front(u) == u);
        assert(!is_white_space(u.last()));
        assert(trim_back(u) == u);
    }
}

/// Relies on `str::trim`, documented to remove leading and trailing
/// characters with the Unicode `White_Space` property.
#[verifier::external_body]
fn trim_text(s: &str) -> (r: String)
    ensures
        r@ == trimmed(s@),
{
    s.trim().to_string()
}

/// The label that a trimmed project name stands for: an empty one is
/// replaced by a fixed placeholder.
pub open spec fn project_label(trimmed_name: Seq<char>) -> Seq<char> {
    if trimmed_name.len() == 0 {
        "Untitled Task"@
    } else {
        trimmed_name
    }
}

/// The label that a project name given by a user is stored under.
pub open spec fn sanitized_name(name: Seq<char>) -> Seq<char> {
    project_label(trimmed(name))
}

/// Picks the stored label for an already trimmed project name.
pub fn label_or_placeholder(trimmed_name: String) -> (r: String)
    ensures
        r@ == project_label(trimmed_name@),
{
    if trimmed_name.as_str().is_empty() {
        String::from_str("Untitled Task")
    } else {
        trimmed_name
    }
}

/// Trims a project name; an empty result becomes the placeholder label.
pub fn sanitize_project_name(project_name: String) -> (r: String)
    ensures
        r@ == sanitized_name(project_name@),
{
    let t = trim_text(project_name.as_str());
    label_or_placeholder(t)
}

/// The name that the tray's quick start passes on: a blank one becomes a
/// fixed label, any other is kept as given.
pub open spec fn tray_name(name: Seq<char>) -> Seq<char> {
    if trimmed(name).len() == 0 {
        "Quick Task"@
    } else {
        name
    }
}

/// Picks the tray's project name, given the name and its trimmed form.
pub fn quick_task_or(project_name: String, trimmed_name: &String) -> (r: String)
    ensures
        r@ == if trimmed_name@.len() == 0 {
            "Quick Task"@
        } else {
            project_name@
        },
{
    if trimmed_name.as_str().is_empty() {
        String::from_str("Quick Task")
    } else {
        project_name
    }
}

/// The project name that the tray's quick start uses.
pub fn tray_project_name(project_name: String) -> (r: String)
    ensures
        r@ == tray_name(project_name@),
{
    let t = trim_text(project_name.as_str());
    quick_task_or(project_name, &t)
}

/// The character of a decimal digit.
pub open spec fn digit_char(d: int) -> char {
    seq!['0', '1', '2', '3', '4', '5', '6', '7', '8', '9'][d]
}

/// The decimal digits of `n`, without leading zeros.
pub open spec fn decimal(n: nat) -> Seq<char>
    decreases n,
{
    if n < 10 {
        seq![digit_char(n as int)]
    } else {
        decimal(n / 10).push(digit_char((n % 10) as int))
    }
}

/// A field of a clock reading with magnitude `mag`, negative when `neg`,
/// written at least two characters wide: zero-padded, or with its sign.
pub open spec fn padded2(neg: bool, mag: nat) -> Seq<char> {
    if neg && mag > 0 {
        seq!['-'] + decimal(mag)
    } else if mag < 10 {
        seq!['0'] + decimal(mag)
    } else {
        decimal(mag)
    }
}

/// `hh:mm:ss` for a signed number of seconds; each field is truncated
/// towards zero and carries the sign of the whole.
pub open spec fn duration_text(total_seconds: int) -> Seq<char> {
    let neg = total_seconds < 0;
    let mag: nat = (if neg { -total_seconds } else { total_seconds }) as nat;
    padded2(neg, mag / 3600) + seq![':'] + padded2(neg, (mag % 3600) / 60) + seq![':'] + padded2(
        neg,
        mag % 60,
    )
}

fn digit_str(d: u64) -> (r: &'static str)
    requires
        d < 10,
    ensures
        r@ == seq![digit_char(d as int)],
{
    proof {
        reveal_strlit("0");
        reveal_strlit("1");
        reveal_strlit("2");
        reveal_strlit("3");
        reveal_strlit("4");
        reveal_strlit("5");
        reveal_strlit("6");
        reveal_strlit("7");
        reveal_strlit("8");
        reveal_strlit("9");
    }
    let r = if d == 0 {
        "0"
    } else if d == 1 {
        "1"
    } else if d == 2 {
        "2"
    } else if d == 3 {
        "3"
    } else if d == 4 {
        "4"
    } else if d == 5 {
        "5"
    } else if d == 6 {
        "6"
    } else if d == 7 {
        "7"
    } else if d == 8 {
        "8"
    } else {
        "9"
    };
    assert(r@ =~= seq![digit_char(d as int)]);
    r
}

fn append_decimal(s: &mut String, n: u64)
    ensures
        final(s)@ == old(s)@ + decimal(n as nat),
    decreases n,
{
    if n >= 10 {
        append_decimal(s, n / 10);
        s.append(digit_str(n % 10));
        assert(final(s)@ =~= old(s)@ + decimal(n as nat));
    } else {
        s.append(digit_str(n));
    }
}

fn append_padded(s: &mut String, neg: bool, mag: u64)
    ensures
        final(s)@ == old(s)@ + padded2(neg, mag as nat),
{
    proof {
        reveal_strlit("-");
        reveal_strlit("0");
    }
    let ghost before = s@;
    if neg && mag > 0 {
        s.append("-");
    } else if mag < 10 {
        s.append("0");
    }
    append_decimal(s, mag);
    assert(s@ =~= before + padded2(neg, mag as nat));
}

/// Writes a number of seconds as `hh:mm:ss`, as `{:02}` would write each
/// field of the truncated division.
pub fn format_duration(total_seconds: i64) -> (r: String)
    ensures
        r@ == duration_text(total_seconds as int),
{
    let neg = total_seconds < 0;
    let mag: u64 = if neg {
        (-(total_seconds as i128)) as u64
    } else {
        total_seconds as u64
    };
    let mut s = String::new();
    append_padded(&mut s, neg, mag / 3600);
    proof {
        reveal_strlit(":");
    }
    s.append(":");
    append_padded(&mut s, neg, (mag % 3600) / 60);
    s.append(":");
    append_padded(&mut s, neg, mag % 60);
    assert(s@ =~= duration_text(total_seconds as int));
    s
}

} // verus!
