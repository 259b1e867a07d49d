//! Text the launcher writes into control files, and the paths it names.

use vstd::prelude::*;
use vstd::string::*;

verus! {

/// The character of the decimal digit `d`.
pub open spec fn digit(d: nat) -> char
    recommends
        d < 10,
{
    if d == 0 {
        '0'
    } else if d == 1 {
        '1'
    } else if d == 2 {
        '2'
    } else if d == 3 {
        '3'
    } else if d == 4 {
        '4'
    } else if d == 5 {
        '5'
    } else if d == 6 {
        '6'
    } else if d == 7 {
        '7'
    } else if d == 8 {
        '8'
    } else {
        '9'
    }
}

/// The decimal digits of `n`, most significant first, without leading zeros.
pub open spec fn decimal(n: nat) -> Seq<char>
    decreases n,
{
    if n < 10 {
        seq![digit(n)]
    } else {
        decimal(n / 10).push(digit(n % 10))
    }
}

/// The decimal text of an integer: a minus sign for a negative one, then the
/// digits of its magnitude.
pub open spec fn signed_decimal(i: int) -> Seq<char> {
    if i < 0 {
        seq!['-'] + decimal((-i) as nat)
    } else {
        decimal(i as nat)
    }
}

/// Whether `text` can be handed to the kernel as a string: it holds no NUL.
pub open spec fn passable(text: Seq<char>) -> bool {
    !text.contains('\0')
}

/// Whether `path` starts at the filesystem root.
pub open spec fn absolute(path: Seq<char>) -> bool {
    path.len() > 0 && path[0] == '/'
}

/// `name` appended to `base` as one more path component: a separator stands
/// between them unless `base` already ends in one.
pub open spec fn joined(base: Seq<char>, name: Seq<char>) -> Seq<char> {
    if base.len() > 0 && base.last() == '/' {
        base + name
    } else {
        base + seq!['/'] + name
    }
}

/// Whether `name` is a single path component that names a directory entry of
/// its own: it holds neither a separator nor a NUL and is neither `.` nor `..`.
pub open spec fn component(name: Seq<char>) -> bool {
    &&& !name.contains('/')
    &&& !name.contains('\0')
    &&& name != seq!['.']
    &&& name != seq!['.', '.']
}

/// Whether `prefix` followed by a separator is the beginning of `path`, that
/// is, whether `path` lies inside the directory `prefix`.
pub open spec fn inside(path: Seq<char>, prefix: Seq<char>) -> bool {
    (prefix + seq!['/']).is_prefix_of(path)
}

/// The one-character text of a decimal digit.
fn digit_text(d: u64) -> (text: &'static str)
    requires
        d < 10,
    ensures
        text@ == seq![digit(d as nat)],
{
    proof {
        reveal_strlit("0");
        reveal_strlit("1");
        reveal_strlit("2");
        reveal_strlit("3");
        reveal_strlit("4");
        reveal_strlit("5");
        reveal_strlit("6");
        reveal_strlit("7");
        reveal_strlit("8");
        reveal_strlit("9");
    }
    let text = if d == 0 {
        "0"
    } else if d == 1 {
        "1"
    } else if d == 2 {
        "2"
    } else if d == 3 {
        "3"
    } else if d == 4 {
        "4"
    } else if d == 5 {
        "5"
    } else if d == 6 {
        "6"
    } else if d == 7 {
        "7"
    } else if d == 8 {
        "8"
    } else {
        "9"
    };
    assert(text@ =~= seq![digit(d as nat)]);
    text
}

/// Appends the decimal digits of `n` to `out`.
fn push_decimal(n: u64, out: &mut String)
    ensures
        final(out)@ == old(out)@ + decimal(n as nat),
    decreases n,
{
    if n >= 10 {
        push_decimal(n / 10, out);
    }
    let low: u64 = n % 10;
    out.append(digit_text(low));
    proof {
        if n >= 10 {
            assert(final(out)@ =~= old(out)@ + decimal((n / 10) as nat).push(digit(low as nat)));
        }
    }
}

/// Renders an integer as decimal text, as it is written to a control file.
pub fn render_decimal(value: i64) -> (text: String)
    ensures
        text@ == signed_decimal(value as int),
{
    let mut text = String::new();
    if value < 0 {
        proof {
            reveal_strlit("-");
        }
        text.append("-");
        assert(text@ =~= seq!['-']);
        let magnitude: u64 = (-(value + 1)) as u64 + 1;
        push_decimal(magnitude, &mut text);
    } else {
        push_decimal(value as u64, &mut text);
        assert(text@ =~= decimal(value as nat));
    }
    text
}

/// Whether `wanted` occurs in `text`.
pub fn contains_char(text: &str, wanted: char) -> (found: bool)
    ensures
        found == text@.contains(wanted),
{
    broadcast use vstd::string::group_string_axioms;

    let chars = text.chars();
    for c in it: chars
        invariant
            it.seq() == text@,
            forall|i: int| 0 <= i < it.index() ==> text@[i] != wanted,
    {
        if c == wanted {
            return true;
        }
    }
    false
}

/// Whether `path` starts at the filesystem root.
pub fn is_absolute(path: &str) -> (yes: bool)
    ensures
        yes == absolute(path@),
{
    path.unicode_len() > 0 && path.get_char(0) == '/'
}

/// Appends `name` to `base` as one more path component.
pub fn join_path(base: &str, name: &str) -> (path: String)
    ensures
        path@ == joined(base@, name@),
{
    let count: usize = base.unicode_len();
    let mut path = base.to_owned();
    if !(count > 0 && base.get_char(count - 1) == '/') {
        proof {
            reveal_strlit("/");
        }
        path.append("/");
        assert(path@ =~= base@ + seq!['/']);
    }
    path.append(name);
    path
}

/// Whether `text` can be handed to the kernel as a string.
pub fn is_passable(text: &str) -> (yes: bool)
    ensures
        yes == passable(text@),
{
    !contains_char(text, '\0')
}

/// Whether `name` is a single path component that names an entry of its own.
pub fn is_component(name: &str) -> (yes: bool)
    ensures
        yes == component(name@),
{
    if contains_char(name, '/') || contains_char(name, '\0') {
        return false;
    }
    let count: usize = name.unicode_len();
    if count == 1 && name.get_char(0) == '.' {
        assert(name@ =~= seq!['.']);
        return false;
    }
    if count == 2 && name.get_char(0) == '.' && name.get_char(1) == '.' {
        assert(name@ =~= seq!['.', '.']);
        return false;
    }
    assert(name@ != seq!['.']) by {
        if name@ == seq!['.'] {
            assert(name@.len() == 1 && name@[0] == '.');
        }
    }
    assert(name@ != seq!['.', '.']) by {
        if name@ == seq!['.', '.'] {
            assert(name@.len() == 2 && name@[0] == '.' && name@[1] == '.');
        }
    }
    true
}

/// A copy of a list of texts.
pub(crate) fn copy_texts(items: &Vec<String>) -> (copy: Vec<String>)
    ensures
        copy.deep_view() == items.deep_view(),
{
    let mut copy: Vec<String> = Vec::new();
    let mut at: usize = 0;
    while at < items.len()
        invariant
            at <= items.len(),
            copy.len() == at,
            forall|i: int| 0 <= i < at ==> #[trigger] copy[i]@ == items[i]@,
        decreases items.len() - at,
    {
        copy.push(items[at].clone());
        at += 1;
    }
    assert(copy.deep_view() =~= items.deep_view());
    copy
}

/// The digits of a number hold no NUL.
pub proof fn digits_are_passable(n: nat)
    ensures
        passable(decimal(n)),
    decreases n,
{
    let text = decimal(n);
    if n >= 10 {
        digits_are_passable(n / 10);
        let front = decimal(n / 10);
        assert forall|i: int| 0 <= i < text.len() implies text[i] != '\0' by {
            if i < front.len() {
                assert(text[i] == front[i]);
                assert(front.contains(front[i]));
            } else {
                assert(text[i] == digit(n % 10));
            }
        }
    } else {
        assert forall|i: int| 0 <= i < text.len() implies text[i] != '\0' by {
            assert(text[i] == digit(n));
        }
    }
}

/// Decimal text holds digits and at most a sign, so it holds no NUL.
pub proof fn decimal_is_passable(value: int)
    ensures
        passable(signed_decimal(value)),
{
    let magnitude = if value < 0 {
        (-value) as nat
    } else {
        value as nat
    };
    digits_are_passable(magnitude);
    let text = signed_decimal(value);
    assert forall|i: int| 0 <= i < text.len() implies text[i] != '\0' by {
        if value < 0 {
            if i > 0 {
                assert(text[i] == decimal(magnitude)[i - 1]);
                assert(decimal(magnitude).contains(decimal(magnitude)[i - 1]));
            }
        } else {
            assert(decimal(magnitude).contains(text[i]));
        }
    }
}

/// Joining keeps what makes a path fit for the kernel: the path of a
/// component under a base is absolute if the base is, and holds no NUL if
/// neither of them does.
pub proof fn joined_keeps_fitness(base: Seq<char>, name: Seq<char>)
    ensures
        absolute(base) ==> absolute(joined(base, name)),
        passable(base) && passable(name) ==> passable(joined(base, name)),
        base.is_prefix_of(joined(base, name)),
{
    let path = joined(base, name);
    let stem = if base.len() > 0 && base.last() == '/' {
        base
    } else {
        base + seq!['/']
    };
    assert(path =~= stem + name);
    if absolute(base) {
        assert(path[0] == base[0]);
    }
    if passable(base) && passable(name) {
        assert forall|i: int| 0 <= i < path.len() implies path[i] != '\0' by {
            if i < base.len() {
                assert(path[i] == base[i]);
                assert(base.contains(base[i]));
            } else if i < stem.len() {
                assert(path[i] == '/');
            } else {
                assert(path[i] == name[i - stem.len()]);
                assert(name.contains(name[i - stem.len()]));
            }
        }
    }
}

/// A path that ends in a component does not end in a separator.
pub proof fn component_ends_its_path(base: Seq<char>, name: Seq<char>)
    requires
        name.len() > 0 && component(name),
    ensures
        joined(base, name).len() > 0,
        joined(base, name).last() == name.last(),
        joined(base, name).last() != '/',
{
    assert(name.contains(name[name.len() - 1]));
}

/// `base` joined with two different components gives two different paths,
/// neither of which lies inside the other.
pub proof fn joined_components_are_apart(base: Seq<char>, a: Seq<char>, b: Seq<char>)
    requires
        component(a),
        component(b),
        a != b,
    ensures
        joined(base, a) != joined(base, b),
        !inside(joined(base, b), joined(base, a)),
        !inside(joined(base, a), joined(base, b)),
{
    let stem = if base.len() > 0 && base.last() == '/' {
        base
    } else {
        base + seq!['/']
    };
    assert(joined(base, a) =~= stem + a);
    assert(joined(base, b) =~= stem + b);
    let n = stem.len() as int;
    if joined(base, a) == joined(base, b) {
        assert(a.len() == b.len());
        assert forall|i: int| 0 <= i < a.len() implies a[i] == b[i] by {
            assert((stem + a)[n + i] == a[i]);
            assert((stem + b)[n + i] == b[i]);
        }
        assert(a =~= b);
    }
    if inside(joined(base, b), joined(base, a)) {
        let at = a.len() as int;
        let shorter = stem + a + seq!['/'];
        assert(shorter[n + at] == '/');
        assert((stem + b)[n + at] == b[at]);
        assert(b.contains('/'));
    }
    if inside(joined(base, a), joined(base, b)) {
        let at = b.len() as int;
        let shorter = stem + b + seq!['/'];
        assert(shorter[n + at] == '/');
        assert((stem + a)[n + at] == a[at]);
        assert(a.contains('/'));
    }
}

/// Two different directories that do not end in a separator hold different
/// entries of the same name.
pub proof fn different_directories_hold_different_files(
    a: Seq<char>,
    b: Seq<char>,
    name: Seq<char>,
)
    requires
        a != b,
        a.len() > 0 && a.last() != '/',
        b.len() > 0 && b.last() != '/',
    ensures
        joined(a, name) != joined(b, name),
{
    if joined(a, name) == joined(b, name) {
        let left = a + seq!['/'] + name;
        let right = b + seq!['/'] + name;
        assert(left.len() == right.len());
        assert(a.len() == b.len());
        assert forall|i: int| 0 <= i < a.len() implies a[i] == b[i] by {
            assert(left[i] == a[i]);
            assert(right[i] == b[i]);
        }
        assert(a =~= b);
    }
}

} // verus!
