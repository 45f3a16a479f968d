use vstd::prelude::*;
use vstd::string::StringExecFns;

verus! {

/// The views of a sequence of rendered lines.
pub open spec fn lines_model(v: Seq<String>) -> Seq<Seq<char>> {
    v.map_values(|s: String| s@)
}

/// The character that renders a single decimal digit.
pub open spec fn spec_digit_char(d: int) -> char {
    if d == 0 {
        '0'
    } else if d == 1 {
        '1'
    } else if d == 2 {
        '2'
    } else if d == 3 {
        '3'
    } else if d == 4 {
        '4'
    } else if d == 5 {
        '5'
    } else if d == 6 {
        '6'
    } else if d == 7 {
        '7'
    } else if d == 8 {
        '8'
    } else {
        '9'
    }
}

/// The decimal rendering of a natural number, most significant digit first.
pub open spec fn spec_dec(n: nat) -> Seq<char>
    decreases n,
{
    if n < 10 {
        seq![spec_digit_char(n as int)]
    } else {
        spec_dec(n / 10).push(spec_digit_char((n % 10) as int))
    }
}

/// The indentation used for one nesting level of the resource tree rendering:
/// two spaces per level, and none for non-positive levels.
pub open spec fn spec_tab(level: int) -> Seq<char> {
    Seq::new(if level > 0 { (2 * level) as nat } else { 0 }, |i: int| ' ')
}

fn digit_str(d: u64) -> (r: &'static str)
    requires
        d < 10,
    ensures
        r@ == seq![spec_digit_char(d as int)],
{
    proof {
        reveal_strlit("0");
        reveal_strlit("1");
        reveal_strlit("2");
        reveal_strlit("3");
        reveal_strlit("4");
        reveal_strlit("5");
        reveal_strlit("6");
        reveal_strlit("7");
        reveal_strlit("8");
        reveal_strlit("9");
    }
    let r = match d {
        0 => "0",
        1 => "1",
        2 => "2",
        3 => "3",
        4 => "4",
        5 => "5",
        6 => "6",
        7 => "7",
        8 => "8",
        _ => "9",
    };
    proof {
        assert(r@ =~= seq![spec_digit_char(d as int)]);
    }
    r
}

/// Renders a number in decimal, most significant digit first.
pub fn u64_to_string(n: u64) -> (r: String)
    ensures
        r@ == spec_dec(n as nat),
    decreases n,
{
    if n < 10 {
        digit_str(n).to_owned()
    } else {
        let mut s = u64_to_string(n / 10);
        s.append(digit_str(n % 10));
        proof {
            assert(s@ =~= spec_dec(n as nat));
        }
        s
    }
}

/// Builds the indentation string for the given nesting level: two spaces per
/// level, empty for non-positive levels.
pub fn get_tab_str_from_level(level: i32) -> (r: String)
    ensures
        r@ == spec_tab(level as int),
{
    let mut s: String = String::new();
    let mut i: i32 = 0;
    proof {
        assert(s@ =~= spec_tab(0));
    }
    while i < level
        invariant
            0 <= i,
            level > 0 ==> i <= level,
            level <= 0 ==> i == 0,
            s@ == spec_tab(i as int),
        decreases level - i,
    {
        s.append("  ");
        i += 1;
        proof {
            reveal_strlit("  ");
            assert(s@ =~= spec_tab(i as int));
        }
    }
    s
}

} // verus!
