//! Text as sequences of characters: searching, ordering and number formatting.
use vstd::prelude::*;
use vstd::string::*;

verus! {

/// `needle` stands in `s` at character `i`.
pub open spec fn occurs_at(s: Seq<char>, needle: Seq<char>, i: int) -> bool {
    0 <= i && i + needle.len() <= s.len() && s.subrange(i, i + needle.len()) == needle
}

/// `needle` stands somewhere in `s`.
pub open spec fn contains_text(s: Seq<char>, needle: Seq<char>) -> bool {
    exists|i: int| occurs_at(s, needle, i)
}

/// `a` comes before `b` in the lexicographic order of code points.
pub open spec fn text_before(a: Seq<char>, b: Seq<char>) -> bool
    decreases a.len(),
{
    if b.len() == 0 {
        false
    } else if a.len() == 0 {
        true
    } else if a[0] != b[0] {
        a[0] < b[0]
    } else {
        text_before(a.drop_first(), b.drop_first())
    }
}

/// The digit character of `d`, for `d` below ten.
pub open spec fn digit(d: nat) -> char {
    (48 + d) as char
}

/// The decimal notation of `n`, without leading zeros.
pub open spec fn decimal(n: nat) -> Seq<char>
    decreases n,
{
    if n < 10 {
        seq![digit(n)]
    } else {
        decimal(n / 10).push(digit(n % 10))
    }
}

/// `n` zeros.
pub open spec fn zeros(n: nat) -> Seq<char> {
    Seq::new(n, |i: int| '0')
}

/// The decimal notation of `n`, filled up with leading zeros to at least `width` characters.
pub open spec fn padded_decimal(n: nat, width: nat) -> Seq<char> {
    let digits = decimal(n);
    if digits.len() < width {
        zeros((width - digits.len()) as nat) + digits
    } else {
        digits
    }
}

/// What `{:?}` prints for a string: the text in double quotes, with escapes.
pub uninterp spec fn quoted(s: Seq<char>) -> Seq<char>;

/// Calls the `Debug` formatting of std's `str`. Its result is a function of the text alone and
/// is named `quoted`; which characters are escaped, and how, is left unsaid.
#[verifier::external_body]
pub(crate) fn quote(s: &str) -> (res: String)
    ensures
        res@ == quoted(s@),
{
    format!("{s:?}")
}

/// What `{:?}` prints for a path that is given as text.
pub uninterp spec fn quoted_path(path: Seq<char>) -> Seq<char>;

/// Calls the `Debug` formatting of std's `Path` on a path that is valid text. Its result is named
/// `quoted_path`; which characters are escaped, and how, is left unsaid.
#[verifier::external_body]
pub(crate) fn quote_path(path: &str) -> (res: String)
    ensures
        res@ == quoted_path(path@),
{
    format!("{:?}", std::path::Path::new(path))
}

/// What is read out of bytes that should be UTF-8 text.
pub uninterp spec fn decoded(bytes: Seq<u8>) -> Seq<char>;

/// Calls std's `String::from_utf8_lossy`. Its result is named `decoded`; where it puts replacement
/// characters for bytes that are no text is left unsaid.
#[verifier::external_body]
pub(crate) fn decode(bytes: &Vec<u8>) -> (res: String)
    ensures
        res@ == decoded(bytes@),
{
    String::from_utf8_lossy(bytes).into_owned()
}

/// `c` can separate the parts of a path on some platform.
pub open spec fn separates(c: char) -> bool {
    c == '/' || c == '\\' || c == ':'
}

/// A file name that no platform takes for a path of several parts, nor for this directory or the one
/// above it.
pub open spec fn plain_name(name: Seq<char>) -> bool {
    &&& exists|i: int| 0 <= i < name.len() && #[trigger] name[i] != '.'
    &&& forall|i: int| 0 <= i < name.len() ==> !separates(#[trigger] name[i])
}

/// The directory begins with `\\?\`. What Windows finds there is cleaned up when it is joined to.
pub open spec fn is_verbatim(dir: Seq<char>) -> bool {
    dir.len() >= 4 && dir[0] == '\\' && dir[1] == '\\' && dir[2] == '?' && dir[3] == '\\'
}

/// `path` ends in `name`, behind a separator.
pub open spec fn ends_in_name(name: Seq<char>, path: Seq<char>) -> bool {
    let at = path.len() - name.len();
    at > 0 && path.skip(at) == name && separates(path[at - 1])
}

/// `path` is the file `name` in the directory `dir`: the two stand behind each other, with a
/// separator between them where `dir` is not empty and does not end in one. Where `dir` begins with
/// `\\?\`, it may have been cleaned up, and nothing is said of what stands before the name.
pub open spec fn in_directory(dir: Seq<char>, name: Seq<char>, path: Seq<char>) -> bool {
    if is_verbatim(dir) {
        ends_in_name(name, path)
    } else {
        ||| (dir.len() == 0 || separates(dir.last())) && path == dir + name
        ||| dir.len() > 0 && path == dir + seq!['/'] + name
        ||| dir.len() > 0 && path == dir + seq!['\\'] + name
    }
}

/// Calls `join` of std's `Path` with a plain file name: the name is put behind the directory,
/// with the platform's separator in between if needed. Which separator that is, and whether a
/// directory that ends in one gets another, depends on the platform and is left unsaid. So is what
/// becomes of a directory that begins with `\\?\`, which Windows normalizes; the name comes last
/// there, too.
#[verifier::external_body]
pub(crate) fn join_path(dir: &str, name: &str) -> (res: String)
    requires
        plain_name(name@),
    ensures
        in_directory(dir@, name@, res@),
{
    std::path::Path::new(dir).join(name).to_string_lossy().into_owned()
}

/// The texts of a list of strings.
pub open spec fn texts(strings: Seq<String>) -> Seq<Seq<char>> {
    strings.map_values(|s: String| s@)
}

/// One text more.
pub(crate) fn push_text(strings: &mut Vec<String>, s: &str)
    ensures
        texts(final(strings)@) == texts(old(strings)@).push(s@),
{
    strings.push(s.to_owned());
    assert(texts(strings@) =~= texts(old(strings)@).push(s@));
}

/// The characters of `s`.
pub fn chars_of(s: &str) -> (res: Vec<char>)
    ensures
        res@ == s@,
{
    let mut res: Vec<char> = Vec::new();
    for c in it: s.chars()
        invariant
            it.seq() == s@,
            res@ == s@.take(it.index() as int),
    {
        res.push(c);
    }
    res
}

fn occurs_here(s: &Vec<char>, needle: &Vec<char>, at: usize) -> (res: bool)
    requires
        at + needle.len() <= s.len(),
    ensures
        res == occurs_at(s@, needle@, at as int),
{
    let mut k: usize = 0;
    while k < needle.len()
        invariant
            k <= needle@.len(),
            at + needle.len() <= s.len(),
            forall|j: int| 0 <= j < k ==> s@[at + j] == needle@[j],
        decreases needle@.len() - k,
    {
        if s[at + k] != needle[k] {
            assert(s@.subrange(at as int, at + needle@.len())[k as int] != needle@[k as int]);
            return false;
        }
        k = k + 1;
    }
    assert(s@.subrange(at as int, at + needle@.len()) =~= needle@);
    true
}

/// Whether `needle` stands somewhere in `s`.
pub fn has_text(s: &str, needle: &str) -> (res: bool)
    ensures
        res == contains_text(s@, needle@),
{
    let text = chars_of(s);
    let wanted = chars_of(needle);
    if wanted.len() > text.len() {
        return false;
    }
    let last: usize = text.len() - wanted.len();
    for i in 0..last
        invariant
            text@ == s@,
            wanted@ == needle@,
            last == s@.len() - needle@.len(),
            forall|j: int| 0 <= j < i ==> !occurs_at(s@, needle@, j),
    {
        if occurs_here(&text, &wanted, i) {
            return true;
        }
    }
    occurs_here(&text, &wanted, last)
}

/// Where `needle` stands in `s` for the last time.
pub fn last_place(s: &str, needle: &str) -> (res: Option<usize>)
    ensures
        match res {
            Some(at) => occurs_at(s@, needle@, at as int) && forall|j: int|
                j > at ==> !occurs_at(s@, needle@, j),
            None => !contains_text(s@, needle@),
        },
{
    let text = chars_of(s);
    let wanted = chars_of(needle);
    if wanted.len() > text.len() {
        return None;
    }
    let mut i: usize = text.len() - wanted.len();
    loop
        invariant
            text@ == s@,
            wanted@ == needle@,
            i + needle@.len() <= s@.len(),
            forall|j: int| j > i ==> !occurs_at(s@, needle@, j),
        decreases i,
    {
        if occurs_here(&text, &wanted, i) {
            return Some(i);
        }
        if i == 0 {
            return None;
        }
        i = i - 1;
    }
}

/// Whether `a` comes before `b` in the lexicographic order of code points.
pub fn comes_before(a: &str, b: &str) -> (res: bool)
    ensures
        res == text_before(a@, b@),
{
    let left = chars_of(a);
    let right = chars_of(b);
    let mut i: usize = 0;
    assert(a@.skip(0) =~= a@);
    assert(b@.skip(0) =~= b@);
    while i < left.len() && i < right.len()
        invariant
            left@ == a@,
            right@ == b@,
            i <= a@.len(),
            i <= b@.len(),
            text_before(a@, b@) == text_before(a@.skip(i as int), b@.skip(i as int)),
        decreases a@.len() - i,
    {
        if left[i] != right[i] {
            return left[i] < right[i];
        }
        assert(a@.skip(i as int).drop_first() =~= a@.skip(i + 1));
        assert(b@.skip(i as int).drop_first() =~= b@.skip(i + 1));
        i = i + 1;
    }
    i < right.len()
}

/// The order of code points is strict: no text comes before itself.
pub proof fn text_before_is_irreflexive(a: Seq<char>)
    ensures
        !text_before(a, a),
    decreases a.len(),
{
    if a.len() > 0 {
        text_before_is_irreflexive(a.drop_first());
    }
}

/// The order of code points is transitive.
pub proof fn text_before_is_transitive(a: Seq<char>, b: Seq<char>, c: Seq<char>)
    requires
        text_before(a, b),
        text_before(b, c),
    ensures
        text_before(a, c),
    decreases a.len(),
{
    if a.len() > 0 && a[0] == b[0] && b[0] == c[0] {
        text_before_is_transitive(a.drop_first(), b.drop_first(), c.drop_first());
    }
}

/// Of two different texts one comes before the other.
pub proof fn text_before_is_total(a: Seq<char>, b: Seq<char>)
    requires
        a != b,
    ensures
        text_before(a, b) || text_before(b, a),
    decreases a.len(),
{
    if a.len() > 0 && b.len() > 0 && a[0] == b[0] {
        if a.drop_first() == b.drop_first() {
            assert(a =~= seq![a[0]] + a.drop_first());
            assert(b =~= seq![b[0]] + b.drop_first());
        }
        text_before_is_total(a.drop_first(), b.drop_first());
    } else if a.len() == 0 && b.len() == 0 {
        assert(a =~= b);
    }
}

fn digit_text(d: u64) -> (res: &'static str)
    requires
        d < 10,
    ensures
        res@ == seq![digit(d as nat)],
{
    proof {
        reveal_strlit("0");
        reveal_strlit("1");
        reveal_strlit("2");
        reveal_strlit("3");
        reveal_strlit("4");
        reveal_strlit("5");
        reveal_strlit("6");
        reveal_strlit("7");
        reveal_strlit("8");
        reveal_strlit("9");
    }
    let res = if d == 0 {
        "0"
    } else if d == 1 {
        "1"
    } else if d == 2 {
        "2"
    } else if d == 3 {
        "3"
    } else if d == 4 {
        "4"
    } else if d == 5 {
        "5"
    } else if d == 6 {
        "6"
    } else if d == 7 {
        "7"
    } else if d == 8 {
        "8"
    } else {
        "9"
    };
    assert(res@ =~= seq![digit(d as nat)]);
    res
}

/// The decimal notation of `n`.
pub fn decimal_text(n: u128) -> (res: String)
    ensures
        res@ == decimal(n as nat),
    decreases n,
{
    if n < 10 {
        digit_text(n as u64).to_owned()
    } else {
        let mut res = decimal_text(n / 10);
        res.append(digit_text((n % 10) as u64));
        assert(res@ =~= decimal(n as nat));
        res
    }
}

/// The decimal notation of `n`, filled up with leading zeros to at least `width` characters.
pub fn padded_decimal_text(n: u64, width: usize) -> (res: String)
    ensures
        res@ == padded_decimal(n as nat, width as nat),
{
    let digits = decimal_text(n as u128);
    let len: usize = digits.as_str().unicode_len();
    if len >= width {
        return digits;
    }
    let mut res = String::new();
    let mut i: usize = 0;
    assert(res@ =~= zeros(0));
    proof {
        reveal_strlit("0");
    }
    while i < width - len
        invariant
            len < width,
            i <= width - len,
            "0"@ == seq!['0'],
            res@ == zeros(i as nat),
        decreases width - len - i,
    {
        res.append("0");
        i = i + 1;
        assert(res@ =~= zeros(i as nat));
    }
    res.append(digits.as_str());
    res
}

/// A decimal notation has a first digit.
pub proof fn decimal_is_not_empty(n: nat)
    ensures
        decimal(n).len() >= 1,
    decreases n,
{
    if n >= 10 {
        decimal_is_not_empty(n / 10);
    }
}

/// A notation of more than one digit does not start with a zero.
pub proof fn decimal_has_no_leading_zero(n: nat)
    requires
        n > 0,
    ensures
        decimal(n)[0] != '0',
    decreases n,
{
    if n >= 10 {
        decimal_is_not_empty(n / 10);
        decimal_has_no_leading_zero(n / 10);
    }
}

/// A decimal notation holds nothing but digits.
pub proof fn decimal_holds_digits(n: nat, i: int)
    requires
        0 <= i < decimal(n).len(),
    ensures
        48 <= decimal(n)[i] as int <= 57,
    decreases n,
{
    if n >= 10 && i < decimal(n / 10).len() {
        decimal_holds_digits(n / 10, i);
    }
}

/// So does one that is filled up with zeros.
pub proof fn padded_decimal_holds_digits(n: nat, width: nat, i: int)
    requires
        0 <= i < padded_decimal(n, width).len(),
    ensures
        48 <= padded_decimal(n, width)[i] as int <= 57,
{
    let digits = decimal(n);
    let filled = padded_decimal(n, width).len() - digits.len();
    if i >= filled {
        decimal_holds_digits(n, i - filled);
    }
}

/// Different numbers have different decimal notations.
pub proof fn decimal_is_injective(a: nat, b: nat)
    requires
        decimal(a) == decimal(b),
    ensures
        a == b,
    decreases a,
{
    decimal_is_not_empty(a / 10);
    decimal_is_not_empty(b / 10);
    assert(decimal(a).last() == decimal(b).last());
    assert(digit(a % 10) as int == 48 + a % 10);
    assert(digit(b % 10) as int == 48 + b % 10);
    assert(decimal(a).last() == digit(a % 10));
    assert(decimal(b).last() == digit(b % 10));
    if a >= 10 && b >= 10 {
        assert(decimal(a).drop_last() =~= decimal(a / 10));
        assert(decimal(b).drop_last() =~= decimal(b / 10));
        decimal_is_injective(a / 10, b / 10);
    } else if a >= 10 {
        assert(decimal(a).len() >= 2);
    } else if b >= 10 {
        assert(decimal(b).len() >= 2);
    }
}

/// Ten to the power of `n`.
pub open spec fn power_of_ten(n: nat) -> nat
    decreases n,
{
    if n == 0 {
        1
    } else {
        10 * power_of_ten((n - 1) as nat)
    }
}

/// What stands before two texts does not change their order.
pub proof fn text_before_behind_a_head(head: Seq<char>, a: Seq<char>, b: Seq<char>)
    ensures
        text_before(head + a, head + b) == text_before(a, b),
    decreases head.len(),
{
    if head.len() == 0 {
        assert(head + a =~= a);
        assert(head + b =~= b);
    } else {
        assert((head + a).drop_first() =~= head.drop_first() + a);
        assert((head + b).drop_first() =~= head.drop_first() + b);
        text_before_behind_a_head(head.drop_first(), a, b);
    }
}

/// What stands behind two texts of the same length does not change their order.
pub proof fn text_before_with_tails(a: Seq<char>, b: Seq<char>, x: Seq<char>, y: Seq<char>)
    requires
        a.len() == b.len(),
        text_before(a, b),
    ensures
        text_before(a + x, b + y),
    decreases a.len(),
{
    assert((a + x).drop_first() =~= a.drop_first() + x);
    assert((b + y).drop_first() =~= b.drop_first() + y);
    if a[0] == b[0] {
        text_before_with_tails(a.drop_first(), b.drop_first(), x, y);
    }
}

proof fn padded_decimal_grows_at_the_end(n: nat, width: nat)
    requires
        width > 1,
    ensures
        padded_decimal(n, width) == padded_decimal(n / 10, (width - 1) as nat).push(digit(n % 10)),
{
    decimal_is_not_empty(n / 10);
    let shorter = padded_decimal(n / 10, (width - 1) as nat);
    if n < 10 {
        assert(decimal(n / 10) =~= seq!['0']);
        assert(shorter =~= zeros((width - 1) as nat));
    }
    assert(padded_decimal(n, width) =~= shorter.push(digit(n % 10)));
}

/// Numbers that are filled up to the same width are ordered as texts as they are as numbers.
pub proof fn padded_decimals_are_ordered(a: nat, b: nat, width: nat)
    requires
        a < b < power_of_ten(width),
        width > 0,
    ensures
        padded_decimal(a, width).len() == width,
        padded_decimal(b, width).len() == width,
        text_before(padded_decimal(a, width), padded_decimal(b, width)),
    decreases width,
{
    padded_decimal_fills_the_width(a, width);
    padded_decimal_fills_the_width(b, width);
    if width == 1 {
        reveal_with_fuel(power_of_ten, 2);
        assert(padded_decimal(a, 1) =~= seq![digit(a)]);
        assert(padded_decimal(b, 1) =~= seq![digit(b)]);
    } else {
        let less = (width - 1) as nat;
        padded_decimal_grows_at_the_end(a, width);
        padded_decimal_grows_at_the_end(b, width);
        padded_decimal_fills_the_width(a / 10, less);
        padded_decimal_fills_the_width(b / 10, less);
        let (p, q) = (padded_decimal(a / 10, less), padded_decimal(b / 10, less));
        let (x, y) = (seq![digit(a % 10)], seq![digit(b % 10)]);
        assert(padded_decimal(a, width) =~= p + x);
        assert(padded_decimal(b, width) =~= q + y);
        if a / 10 < b / 10 {
            padded_decimals_are_ordered(a / 10, b / 10, less);
            text_before_with_tails(p, q, x, y);
        } else {
            assert(a / 10 == b / 10);
            text_before_behind_a_head(p, x, y);
        }
    }
}

proof fn padded_decimal_fills_the_width(n: nat, width: nat)
    requires
        n < power_of_ten(width),
        width > 0,
    ensures
        padded_decimal(n, width).len() == width,
    decreases width,
{
    if width == 1 {
        reveal_with_fuel(power_of_ten, 2);
    } else {
        padded_decimal_grows_at_the_end(n, width);
        padded_decimal_fills_the_width(n / 10, (width - 1) as nat);
    }
}

/// Different numbers have different notations of the same minimal width.
pub proof fn padded_decimal_is_injective(a: nat, b: nat, width: nat)
    requires
        padded_decimal(a, width) == padded_decimal(b, width),
    ensures
        a == b,
{
    decimal_is_not_empty(a);
    decimal_is_not_empty(b);
    let pa = padded_decimal(a, width);
    let da = decimal(a);
    let db = decimal(b);
    if da.len() == db.len() {
        assert(da =~= pa.subrange(pa.len() - da.len(), pa.len() as int));
        assert(db =~= pa.subrange(pa.len() - db.len(), pa.len() as int));
        decimal_is_injective(a, b);
    } else if da.len() < db.len() {
        assert(pa[pa.len() - db.len()] == '0');
        assert(pa[pa.len() - db.len()] == db[0]);
        if b > 0 {
            decimal_has_no_leading_zero(b);
        }
    } else {
        assert(pa[pa.len() - da.len()] == '0');
        assert(pa[pa.len() - da.len()] == da[0]);
        if a > 0 {
            decimal_has_no_leading_zero(a);
        }
    }
}

/// The number that a sequence of digits stands for.
pub open spec fn number_of(digits: Seq<char>) -> int
    decreases digits.len(),
{
    if digits.len() == 0 {
        0
    } else {
        10 * number_of(digits.drop_last()) + (digits.last() as int - 48)
    }
}

/// A decimal notation stands for its number.
pub proof fn decimals_stand_for_their_number(n: nat)
    ensures
        number_of(decimal(n)) == n,
    decreases n,
{
    if n < 10 {
        assert(decimal(n).drop_last() =~= Seq::<char>::empty());
        assert(decimal(n).last() == digit(n));
        assert(number_of(decimal(n).drop_last()) == 0);
    } else {
        decimals_stand_for_their_number(n / 10);
        assert(decimal(n).drop_last() =~= decimal(n / 10));
        assert(decimal(n).last() == digit(n % 10));
    }
}

proof fn leading_zeros_count_nothing(n: nat, digits: Seq<char>)
    ensures
        number_of(zeros(n) + digits) == number_of(digits),
    decreases n + digits.len(),
{
    let all = zeros(n) + digits;
    if digits.len() > 0 {
        leading_zeros_count_nothing(n, digits.drop_last());
        assert(all.drop_last() =~= zeros(n) + digits.drop_last());
        assert(all.last() == digits.last());
    } else if n > 0 {
        leading_zeros_count_nothing((n - 1) as nat, digits);
        assert(all.drop_last() =~= zeros((n - 1) as nat) + digits);
        assert(all.last() == '0');
    } else {
        assert(all =~= digits);
    }
}

/// A notation that is filled up stands for the same number, and is as wide as it has to be: no
/// narrower than asked for, and no wider than the number needs.
pub proof fn padded_decimals_stand_for_their_number(n: nat, width: nat)
    ensures
        number_of(padded_decimal(n, width)) == n,
        padded_decimal(n, width).len() >= width,
        padded_decimal(n, width).len() > width ==> padded_decimal(n, width) == decimal(n),
{
    decimals_stand_for_their_number(n);
    let digits = decimal(n);
    if digits.len() < width {
        leading_zeros_count_nothing((width - digits.len()) as nat, digits);
    }
}

/// The first place where two texts differ decides which comes first; a text comes before all that it
/// begins.
pub proof fn the_first_difference_decides(head: Seq<char>, a: Seq<char>, b: Seq<char>)
    ensures
        a.len() > 0 && b.len() > 0 && a[0] != b[0] ==> text_before(head + a, head + b) == (a[0]
            < b[0]),
        a.len() == 0 && b.len() > 0 ==> text_before(head + a, head + b),
        b.len() == 0 ==> !text_before(head + a, head + b),
    decreases head.len(),
{
    if head.len() > 0 {
        the_first_difference_decides(head.drop_first(), a, b);
        assert((head + a).drop_first() =~= head.drop_first() + a);
        assert((head + b).drop_first() =~= head.drop_first() + b);
    } else {
        assert(head + a =~= a);
        assert(head + b =~= b);
    }
}

/// A plain name has no separator of any platform in it, and is not made of dots alone.
pub proof fn plain_names_have_one_part(name: Seq<char>, i: int)
    requires
        plain_name(name),
        0 <= i < name.len(),
    ensures
        name[i] != '/',
        name[i] != '\\',
        name[i] != ':',
        name.len() == 1 ==> name[0] != '.',
{
    assert(!separates(name[i]));
}

/// A file lies in its directory: its path begins with the directory and ends in the file's name, with at
/// most one character in between. Directories that begin with a backslash may be written otherwise.
pub proof fn files_lie_in_their_directory(dir: Seq<char>, name: Seq<char>, path: Seq<char>)
    requires
        in_directory(dir, name, path),
        dir.len() == 0 || dir[0] != '\\',
    ensures
        dir.len() + name.len() <= path.len() <= dir.len() + name.len() + 1,
        path.take(dir.len() as int) == dir,
        path.skip(path.len() - name.len()) == name,
{
}

} // verus!
