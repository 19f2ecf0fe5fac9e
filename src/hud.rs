use vstd::prelude::*;

#[allow(unused_imports)]
use vstd::string::*;

verus! {

/// The decimal digit `d`.
pub open spec fn digit_char(d: int) -> char {
    if d == 0 {
        '0'
    } else if d == 1 {
        '1'
    } else if d == 2 {
        '2'
    } else if d == 3 {
        '3'
    } else if d == 4 {
        '4'
    } else if d == 5 {
        '5'
    } else if d == 6 {
        '6'
    } else if d == 7 {
        '7'
    } else if d == 8 {
        '8'
    } else {
        '9'
    }
}

/// The decimal numeral of `n`, without leading zeros.
pub open spec fn decimal(n: nat) -> Seq<char>
    decreases n,
{
    if n < 10 {
        seq![digit_char(n as int)]
    } else {
        decimal(n / 10).push(digit_char((n % 10) as int))
    }
}

/// The decimal digit `d` as a string.
fn digit_str(d: u64) -> (r: &'static str)
    requires
        d < 10,
    ensures
        r@ == seq![digit_char(d as int)],
{
    if d == 0 {
        proof {
            reveal_strlit("0");
        }
        "0"
    } else if d == 1 {
        proof {
            reveal_strlit("1");
        }
        "1"
    } else if d == 2 {
        proof {
            reveal_strlit("2");
        }
        "2"
    } else if d == 3 {
        proof {
            reveal_strlit("3");
        }
        "3"
    } else if d == 4 {
        proof {
            reveal_strlit("4");
        }
        "4"
    } else if d == 5 {
        proof {
            reveal_strlit("5");
        }
        "5"
    } else if d == 6 {
        proof {
            reveal_strlit("6");
        }
        "6"
    } else if d == 7 {
        proof {
            reveal_strlit("7");
        }
        "7"
    } else if d == 8 {
        proof {
            reveal_strlit("8");
        }
        "8"
    } else {
        proof {
            reveal_strlit("9");
        }
        "9"
    }
}

/// Appends the decimal numeral of `n` to `s`.
fn push_decimal(s: &mut String, n: u64)
    ensures
        final(s)@ == old(s)@ + decimal(n as nat),
    decreases n,
{
    let ghost start = s@;
    if n >= 10 {
        push_decimal(s, n / 10);
    }
    s.append(digit_str(n % 10));
    proof {
        assert(s@ =~= start + decimal(n as nat));
    }
}

/// The decimal numeral of `n`, without sign, padding or leading zeros.
pub fn decimal_string(n: u64) -> (r: String)
    ensures
        r@ == decimal(n as nat),
{
    let mut r = String::new();
    push_decimal(&mut r, n);
    proof {
        assert(r@ =~= decimal(n as nat));
    }
    r
}

/// The HUD line that counts the shots fired.
pub fn shot_count_text(shots: u64) -> (r: String)
    ensures
        r@ == "Shot count: "@ + decimal(shots as nat),
{
    let digits = decimal_string(shots);
    let r = String::from_str("Shot count: ").concat(digits.as_str());
    r
}

/// The HUD line that shows the frame rate, given in hundredths of a frame
/// per second, with two decimals.
pub fn fps_text(centi_fps: u64) -> (r: String)
    ensures
        r@ == "FPS: "@ + decimal((centi_fps / 100) as nat) + "."@ + (if centi_fps % 100 < 10 {
            "0"@
        } else {
            ""@
        }) + decimal((centi_fps % 100) as nat),
{
    let whole = decimal_string(centi_fps / 100);
    let frac: u64 = centi_fps % 100;
    let mut r = String::from_str("FPS: ");
    r.append(whole.as_str());
    r.append(".");
    if frac < 10 {
        r.append("0");
    }
    let tail = decimal_string(frac);
    r.append(tail.as_str());
    proof {
        reveal_strlit("");
        let pad = if frac < 10 {
            "0"@
        } else {
            ""@
        };
        assert(r@ =~= "FPS: "@ + whole@ + "."@ + pad + tail@);
    }
    r
}

} // verus!
