//! The grammar of service group names: `[APP.ENV#]SERVICE.GROUP[@ORG]`.
use vstd::prelude::*;
use crate::text::{chars_of, lemma_split_nonempty, split, split_chars, views};

verus! {

/// A nonempty name part, free of `.`, `#` and `@`.
pub open spec fn is_part(x: Seq<char>) -> bool {
    x.len() >= 1 && forall|i: int|
        0 <= i < x.len() ==> #[trigger] x[i] != '.' && x[i] != '#' && x[i] != '@'
}

/// The application and environment prefix: nonempty, free of `#` and `@`.
pub open spec fn is_app_env(x: Seq<char>) -> bool {
    x.len() >= 1 && forall|i: int| 0 <= i < x.len() ==> #[trigger] x[i] != '#' && x[i] != '@'
}

/// `SERVICE.GROUP`.
pub open spec fn is_service_dot_group(u: Seq<char>) -> bool {
    let d = split(u, '.');
    d.len() == 2 && is_part(d[0]) && is_part(d[1])
}

/// `SERVICE.GROUP` with an optional `@ORG`.
pub open spec fn is_qualified(t: Seq<char>) -> bool {
    let a = split(t, '@');
    (a.len() == 1 && is_service_dot_group(t)) || (a.len() == 2 && is_service_dot_group(a[0])
        && is_part(a[1]))
}

/// A service group name, with an optional `APP.ENV#` prefix.
pub open spec fn is_service_group(s: Seq<char>) -> bool {
    let h = split(s, '#');
    (h.len() == 1 && is_qualified(s)) || (h.len() == 2 && is_app_env(h[0]) && is_qualified(h[1]))
}

pub open spec fn service_group_error(s: Seq<char>) -> Seq<char> {
    "Invalid service group: "@ + s
        + ". A valid service group string is in the form service.group (example: redis.production)"@
}

fn part_ok(x: &Vec<char>) -> (r: bool)
    ensures
        r == is_part(x@),
{
    if x.len() < 1 {
        return false;
    }
    let mut i: usize = 0;
    while i < x.len()
        invariant
            i <= x.len(),
            forall|j: int| 0 <= j < i ==> #[trigger] x@[j] != '.' && x@[j] != '#' && x@[j] != '@',
        decreases x.len() - i,
    {
        let c = x[i];
        if c == '.' || c == '#' || c == '@' {
            return false;
        }
        i += 1;
    }
    true
}

fn app_env_ok(x: &Vec<char>) -> (r: bool)
    ensures
        r == is_app_env(x@),
{
    if x.len() < 1 {
        return false;
    }
    let mut i: usize = 0;
    while i < x.len()
        invariant
            i <= x.len(),
            forall|j: int| 0 <= j < i ==> #[trigger] x@[j] != '#' && x@[j] != '@',
        decreases x.len() - i,
    {
        let c = x[i];
        if c == '#' || c == '@' {
            return false;
        }
        i += 1;
    }
    true
}

fn service_dot_group_ok(u: &Vec<char>) -> (r: bool)
    ensures
        r == is_service_dot_group(u@),
{
    let d = split_chars(u, '.');
    if d.len() != 2 {
        return false;
    }
    assert(views(d@)[0] == d@[0]@ && views(d@)[1] == d@[1]@);
    part_ok(&d[0]) && part_ok(&d[1])
}

fn qualified_ok(t: &Vec<char>) -> (r: bool)
    ensures
        r == is_qualified(t@),
{
    let a = split_chars(t, '@');
    if a.len() == 1 {
        return service_dot_group_ok(t);
    }
    if a.len() != 2 {
        return false;
    }
    assert(views(a@)[0] == a@[0]@ && views(a@)[1] == a@[1]@);
    service_dot_group_ok(&a[0]) && part_ok(&a[1])
}

/// Whether `s` is a service group name.
pub fn is_service_group_exec(s: &str) -> (r: bool)
    ensures
        r == is_service_group(s@),
{
    let c = chars_of(s);
    let h = split_chars(&c, '#');
    if h.len() == 1 {
        return qualified_ok(&c);
    }
    if h.len() != 2 {
        return false;
    }
    assert(views(h@)[0] == h@[0]@ && views(h@)[1] == h@[1]@);
    app_env_ok(&h[0]) && qualified_ok(&h[1])
}

} // verus!
