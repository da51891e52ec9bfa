//! The label tuple under which one response is counted and timed.
use vstd::prelude::*;

verus! {

/// The character of one decimal digit.
pub open spec fn digit_char(d: nat) -> char {
    seq!['0', '1', '2', '3', '4', '5', '6', '7', '8', '9'][d as int]
}

/// The decimal text of `n`, without leading zeros.
pub open spec fn decimal(n: nat) -> Seq<char>
    decreases n,
{
    if n < 10 {
        seq![digit_char(n)]
    } else {
        decimal(n / 10).push(digit_char(n % 10))
    }
}

/// The ordered label values `(endpoint, method, status)` of one served request.
pub struct LabelTuple {
    pub endpoint: String,
    pub method: String,
    pub status: String,
}

/// What a label tuple stands for: its three texts.
pub type LabelsView = (Seq<char>, Seq<char>, Seq<char>);

impl View for LabelTuple {
    type V = LabelsView;

    open spec fn view(&self) -> LabelsView {
        (self.endpoint@, self.method@, self.status@)
    }
}

/// The labels under which a response is recorded: the matched route template,
/// the method token and the status code in decimal. No route, no labels.
pub open spec fn labels_of(route: Option<Seq<char>>, method: Seq<char>, status: u16) -> Option<
    LabelsView,
> {
    match route {
        Some(endpoint) => Some((endpoint, method, decimal(status as nat))),
        None => None,
    }
}

/// The text of an optional route template.
pub open spec fn route_view(route: Option<&str>) -> Option<Seq<char>> {
    match route {
        Some(s) => Some(s@),
        None => None,
    }
}

/// The text of one decimal digit.
fn digit_text(d: u16) -> (r: &'static str)
    requires
        d < 10,
    ensures
        r@ == seq![digit_char(d as nat)],
{
    proof {
        reveal_strlit("0");
        reveal_strlit("1");
        reveal_strlit("2");
        reveal_strlit("3");
        reveal_strlit("4");
        reveal_strlit("5");
        reveal_strlit("6");
        reveal_strlit("7");
        reveal_strlit("8");
        reveal_strlit("9");
    }
    let r = if d == 0 {
        "0"
    } else if d == 1 {
        "1"
    } else if d == 2 {
        "2"
    } else if d == 3 {
        "3"
    } else if d == 4 {
        "4"
    } else if d == 5 {
        "5"
    } else if d == 6 {
        "6"
    } else if d == 7 {
        "7"
    } else if d == 8 {
        "8"
    } else {
        "9"
    };
    assert(r@ =~= seq![digit_char(d as nat)]);
    r
}

/// Appends the decimal text of `n` to `s`.
fn push_decimal(s: &mut String, n: u16)
    ensures
        final(s)@ == old(s)@ + decimal(n as nat),
    decreases n,
{
    if n >= 10 {
        push_decimal(s, n / 10);
    }
    let d = digit_text(n % 10);
    s.append(d);
    proof {
        if n >= 10 {
            assert(decimal(n as nat) == decimal((n / 10) as nat).push(digit_char((n % 10) as nat)));
            assert(s@ =~= old(s)@ + decimal(n as nat));
        } else {
            assert(decimal(n as nat) == seq![digit_char(n as nat)]);
            assert(s@ =~= old(s)@ + decimal(n as nat));
        }
    }
}

/// The status label of a response: its code in decimal.
pub fn status_label(code: u16) -> (r: String)
    ensures
        r@ == decimal(code as nat),
{
    let mut s = String::new();
    push_decimal(&mut s, code);
    assert(s@ =~= decimal(code as nat));
    s
}

/// Resolves the label tuple of a response from the matched route template
/// (never the concrete path), the method token and the status code.
pub fn response_labels(route: Option<&str>, method: &str, status: u16) -> (r: Option<LabelTuple>)
    ensures
        match r {
            Some(l) => labels_of(route_view(route), method@, status) == Some(l@),
            None => labels_of(route_view(route), method@, status).is_none(),
        },
{
    match route {
        Some(endpoint) => Some(
            LabelTuple {
                endpoint: endpoint.to_owned(),
                method: method.to_owned(),
                status: status_label(status),
            },
        ),
        None => None,
    }
}

} // verus!
