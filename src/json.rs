use vstd::prelude::*;
use crate::params::model;

verus! {

/// The JSON string literal that serde_json writes for `s`: quoted, with the
/// characters JSON requires escaped.
pub uninterp spec fn json_string_of(s: Seq<char>) -> Seq<char>;

/// Relies on serde_json::to_string on a `str`: it writes the string as a JSON
/// string literal. The writer is an in-memory buffer, so it does not fail.
#[verifier::external_body]
fn quote(s: &str) -> (r: String)
    ensures
        r@ == json_string_of(s@),
{
    match serde_json::to_string(s) {
        Ok(t) => t,
        Err(_) => String::new(),
    }
}

/// `parts` written one after another with `sep` between neighbours.
pub open spec fn join(parts: Seq<Seq<char>>, sep: Seq<char>) -> Seq<char>
    decreases parts.len(),
{
    if parts.len() == 0 {
        seq![]
    } else if parts.len() == 1 {
        parts[0]
    } else {
        join(parts.drop_last(), sep) + sep + parts.last()
    }
}

/// A JSON object whose members are `entries`: each a key, and the JSON text
/// of its value.
pub open spec fn object_text(entries: Seq<(Seq<char>, Seq<char>)>) -> Seq<char> {
    "{"@ + join(entries.map_values(|e: (Seq<char>, Seq<char>)| json_string_of(e.0) + ":"@ + e.1), ","@)
        + "}"@
}

/// A value of an options body.
#[derive(Debug)]
pub enum ParamValue {
    /// A JSON string.
    Text(String),
    /// A JSON boolean.
    Flag(bool),
    /// A JSON object from names to strings, such as a set of labels.
    Pairs(Vec<(String, String)>),
    /// An endpoint configuration: an object whose `Aliases` member is an
    /// array of strings.
    Aliases(Vec<String>),
}

/// The abstract content of a `ParamValue`.
pub enum ParamView {
    Text(Seq<char>),
    Flag(bool),
    Pairs(Seq<(Seq<char>, Seq<char>)>),
    Aliases(Seq<Seq<char>>),
}

/// The views of a sequence of strings.
pub open spec fn strings(xs: Seq<String>) -> Seq<Seq<char>> {
    xs.map_values(|x: String| x@)
}

impl View for ParamValue {
    type V = ParamView;

    open spec fn view(&self) -> ParamView {
        match self {
            ParamValue::Text(s) => ParamView::Text(s@),
            ParamValue::Flag(b) => ParamView::Flag(*b),
            ParamValue::Pairs(ps) => ParamView::Pairs(model(ps@)),
            ParamValue::Aliases(xs) => ParamView::Aliases(strings(xs@)),
        }
    }
}

/// The JSON text of a value.
pub open spec fn value_text(v: ParamView) -> Seq<char> {
    match v {
        ParamView::Text(s) => json_string_of(s),
        ParamView::Flag(b) => if b { "true"@ } else { "false"@ },
        ParamView::Pairs(ps) => object_text(
            ps.map_values(|p: (Seq<char>, Seq<char>)| (p.0, json_string_of(p.1))),
        ),
        ParamView::Aliases(xs) => "{"@ + json_string_of("Aliases"@) + ":["@ + join(
            xs.map_values(|x: Seq<char>| json_string_of(x)),
            ","@,
        ) + "]}"@,
    }
}

/// The JSON object of an options body: one member per entry, in order.
pub open spec fn body_text(m: Seq<(Seq<char>, ParamView)>) -> Seq<char> {
    object_text(m.map_values(|e: (Seq<char>, ParamView)| (e.0, value_text(e.1))))
}

fn join_strings(parts: &Vec<String>, sep: &str) -> (r: String)
    ensures
        r@ == join(strings(parts@), sep@),
{
    let mut acc = String::new();
    let n = parts.len();
    let mut i: usize = 0;
    while i < n
        invariant
            n == parts@.len(),
            i <= n,
            acc@ == join(strings(parts@).take(i as int), sep@),
        decreases n - i,
    {
        let ghost before = strings(parts@).take(i as int);
        let ghost after = strings(parts@).take(i + 1);
        assert(after.drop_last() =~= before);
        if i > 0 {
            acc.append(sep);
        } else {
            assert(before =~= Seq::<Seq<char>>::empty());
        }
        acc.append(parts[i].as_str());
        i = i + 1;
    }
    assert(strings(parts@).take(n as int) =~= strings(parts@));
    acc
}

/// The JSON object of `entries`, whose second components are JSON texts.
fn object_from(entries: &Vec<(String, String)>) -> (r: String)
    ensures
        r@ == object_text(model(entries@)),
{
    let mut members: Vec<String> = Vec::new();
    let n = entries.len();
    let mut i: usize = 0;
    while i < n
        invariant
            n == entries@.len(),
            i <= n,
            members@.len() == i,
            forall|j: int| 0 <= j < i ==> (#[trigger] members@[j])@ == json_string_of(entries@[j].0@)
                + ":"@ + entries@[j].1@,
        decreases n - i,
    {
        let mut m = quote(entries[i].0.as_str());
        m.append(":");
        m.append(entries[i].1.as_str());
        members.push(m);
        i = i + 1;
    }
    let inner = join_strings(&members, ",");
    assert(strings(members@) =~= model(entries@).map_values(
        |e: (Seq<char>, Seq<char>)| json_string_of(e.0) + ":"@ + e.1,
    ));
    let mut r = String::from_str("{");
    r.append(inner.as_str());
    r.append("}");
    r
}

/// The JSON text of `v`.
pub fn render_value(v: &ParamValue) -> (r: String)
    ensures
        r@ == value_text(v@),
{
    match v {
        ParamValue::Text(s) => quote(s.as_str()),
        ParamValue::Flag(b) => if *b {
            String::from_str("true")
        } else {
            String::from_str("false")
        },
        ParamValue::Pairs(ps) => {
            let mut quoted: Vec<(String, String)> = Vec::new();
            let n = ps.len();
            let mut i: usize = 0;
            while i < n
                invariant
                    n == ps@.len(),
                    i <= n,
                    quoted@.len() == i,
                    forall|j: int| 0 <= j < i ==> (#[trigger] quoted@[j]).0@ == ps@[j].0@
                        && quoted@[j].1@ == json_string_of(ps@[j].1@),
                decreases n - i,
            {
                let k = ps[i].0.clone();
                let q = quote(ps[i].1.as_str());
                quoted.push((k, q));
                i = i + 1;
            }
            assert(model(quoted@) =~= model(ps@).map_values(
                |p: (Seq<char>, Seq<char>)| (p.0, json_string_of(p.1)),
            ));
            object_from(&quoted)
        },
        ParamValue::Aliases(xs) => {
            let mut quoted: Vec<String> = Vec::new();
            let n = xs.len();
            let mut i: usize = 0;
            while i < n
                invariant
                    n == xs@.len(),
                    i <= n,
                    quoted@.len() == i,
                    forall|j: int| 0 <= j < i ==> (#[trigger] quoted@[j])@ == json_string_of(xs@[j]@),
                decreases n - i,
            {
                quoted.push(quote(xs[i].as_str()));
                i = i + 1;
            }
            assert(strings(quoted@) =~= strings(xs@).map_values(|x: Seq<char>| json_string_of(x)));
            let inner = join_strings(&quoted, ",");
            let mut r = String::from_str("{");
            r.append(quote("Aliases").as_str());
            r.append(":[");
            r.append(inner.as_str());
            r.append("]}");
            r
        },
    }
}

/// The JSON object of an options body.
pub fn render_body(ps: &Vec<(String, ParamValue)>) -> (r: String)
    ensures
        r@ == body_text(model(ps@)),
{
    let mut texts: Vec<(String, String)> = Vec::new();
    let n = ps.len();
    let mut i: usize = 0;
    while i < n
        invariant
            n == ps@.len(),
            i <= n,
            texts@.len() == i,
            forall|j: int| 0 <= j < i ==> (#[trigger] texts@[j]).0@ == ps@[j].0@
                && texts@[j].1@ == value_text(ps@[j].1@),
        decreases n - i,
    {
        let k = ps[i].0.clone();
        let t = render_value(&ps[i].1);
        texts.push((k, t));
        i = i + 1;
    }
    assert(model(texts@) =~= model(ps@).map_values(
        |e: (Seq<char>, ParamView)| (e.0, value_text(e.1)),
    ));
    object_from(&texts)
}

} // verus!

verus! {

/// A fresh copy of a list of strings.
pub fn copy_strings(xs: &Vec<String>) -> (r: Vec<String>)
    ensures
        strings(r@) == strings(xs@),
{
    let mut out: Vec<String> = Vec::new();
    let n = xs.len();
    let mut i: usize = 0;
    while i < n
        invariant
            n == xs@.len(),
            i <= n,
            out@.len() == i,
            forall|j: int| 0 <= j < i ==> (#[trigger] out@[j])@ == xs@[j]@,
        decreases n - i,
    {
        out.push(xs[i].clone());
        i = i + 1;
    }
    assert(strings(out@) =~= strings(xs@));
    out
}

/// A fresh copy of a list of string pairs.
pub fn copy_pairs(ps: &Vec<(String, String)>) -> (r: Vec<(String, String)>)
    ensures
        model(r@) == model(ps@),
{
    let mut out: Vec<(String, String)> = Vec::new();
    let n = ps.len();
    let mut i: usize = 0;
    while i < n
        invariant
            n == ps@.len(),
            i <= n,
            out@.len() == i,
            forall|j: int| 0 <= j < i ==> (#[trigger] out@[j]).0@ == ps@[j].0@ && out@[j].1@ == ps@[j].1@,
        decreases n - i,
    {
        out.push((ps[i].0.clone(), ps[i].1.clone()));
        i = i + 1;
    }
    assert(model(out@) =~= model(ps@));
    out
}

/// A fresh copy of a value.
pub fn copy_value(v: &ParamValue) -> (r: ParamValue)
    ensures
        r@ == v@,
{
    match v {
        ParamValue::Text(s) => ParamValue::Text(s.clone()),
        ParamValue::Flag(b) => ParamValue::Flag(*b),
        ParamValue::Pairs(ps) => ParamValue::Pairs(copy_pairs(ps)),
        ParamValue::Aliases(xs) => ParamValue::Aliases(copy_strings(xs)),
    }
}

/// A fresh copy of the entries of an options body.
pub fn copy_params(ps: &Vec<(String, ParamValue)>) -> (r: Vec<(String, ParamValue)>)
    ensures
        model(r@) == model(ps@),
{
    let mut out: Vec<(String, ParamValue)> = Vec::new();
    let n = ps.len();
    let mut i: usize = 0;
    while i < n
        invariant
            n == ps@.len(),
            i <= n,
            out@.len() == i,
            forall|j: int| 0 <= j < i ==> (#[trigger] out@[j]).0@ == ps@[j].0@ && out@[j].1@ == ps@[j].1@,
        decreases n - i,
    {
        out.push((ps[i].0.clone(), copy_value(&ps[i].1)));
        i = i + 1;
    }
    assert(model(out@) =~= model(ps@));
    out
}

} // verus!
