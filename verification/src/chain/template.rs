//! Prompt template with `{variable}` placeholders.
//!
//! Placeholder names are taken from the `{name}` occurrences found by the
//! pattern `\{([\w-]+)\}`, deduplicated in first-occurrence order;
//! `format` substitutes values for every placeholder.

use vstd::prelude::*;
use crate::error::{SimseError, TemplateErrorCode};
use crate::text::{chars_of, join_seqs, join_strings, replace_chars, replace_spec, str_eq, string_of, views_of};
use crate::values::ValueMap;

verus! {

/// Names the capture group 1 of every match, in order, of the regular
/// expression `\{([\w-]+)\}` over a string.
pub uninterp spec fn placeholder_matches(raw: Seq<char>) -> Seq<Seq<char>>;

/// Calls `Regex::captures_iter` with the placeholder pattern `\{([\w-]+)\}`
/// and collects capture group 1 of each match, in order.
#[verifier::external_body]
fn placeholder_names(raw: &str) -> (r: Vec<String>)
    ensures
        views_of(r@) == placeholder_matches(raw@),
{
    let re = regex::Regex::new(r"\{([\w-]+)\}").unwrap();
    re.captures_iter(raw).map(|c| c[1].to_string()).collect()
}

/// The first `n` names with repeats removed, in first-occurrence order.
pub open spec fn dedup_prefix(names: Seq<Seq<char>>, n: nat) -> Seq<Seq<char>>
    decreases n,
{
    if n == 0 || n > names.len() {
        Seq::empty()
    } else {
        let d = dedup_prefix(names, (n - 1) as nat);
        if d.contains(names[n - 1]) {
            d
        } else {
            d.push(names[n - 1])
        }
    }
}

/// The names with repeats removed, in first-occurrence order.
pub open spec fn dedup(names: Seq<Seq<char>>) -> Seq<Seq<char>> {
    dedup_prefix(names, names.len())
}

/// The first `n` names with repeats removed hold each of those names once.
proof fn lemma_dedup_prefix(names: Seq<Seq<char>>, n: nat)
    requires
        n <= names.len(),
    ensures
        dedup_prefix(names, n).no_duplicates(),
        forall|x: Seq<char>| #[trigger] dedup_prefix(names, n).contains(x) <==> names.take(n as int).contains(x),
    decreases n,
{
    if n > 0 {
        let m = (n - 1) as nat;
        lemma_dedup_prefix(names, m);
        let d = dedup_prefix(names, m);
        let y = names[m as int];
        assert(names.take(n as int) =~= names.take(m as int).push(y));
        assert forall|x: Seq<char>| #[trigger] dedup_prefix(names, n).contains(x) <==> names.take(n as int).contains(x) by {
            if d.contains(y) {
                if x == y {
                    assert(names.take(n as int)[m as int] == y);
                }
                if names.take(n as int).contains(x) && x != y {
                    let k = choose|k: int| 0 <= k < names.take(n as int).len() && names.take(n as int)[k] == x;
                    assert(names.take(m as int)[k] == x);
                }
            } else {
                let e = d.push(y);
                if e.contains(x) {
                    let k = choose|k: int| 0 <= k < e.len() && e[k] == x;
                    if k < d.len() {
                        assert(d[k] == x);
                        assert(d.contains(x));
                        assert(names.take(m as int).contains(x));
                        let j = choose|j: int| 0 <= j < names.take(m as int).len() && names.take(m as int)[j] == x;
                        assert(names.take(n as int)[j] == x);
                    } else {
                        assert(names.take(n as int)[m as int] == y);
                    }
                }
                if names.take(n as int).contains(x) {
                    let k = choose|k: int| 0 <= k < names.take(n as int).len() && names.take(n as int)[k] == x;
                    if k < m {
                        assert(names.take(m as int)[k] == x);
                        assert(d.contains(x));
                        let j = choose|j: int| 0 <= j < d.len() && d[j] == x;
                        assert(e[j] == x);
                    } else {
                        assert(e[d.len() as int] == y);
                    }
                }
            }
        }
        if !d.contains(y) {
            let e = d.push(y);
            assert forall|i: int, j: int| 0 <= i < e.len() && 0 <= j < e.len() && i != j implies e[i] != e[j] by {
                if i < d.len() && j < d.len() {
                    assert(e[i] == d[i] && e[j] == d[j]);
                } else if i < d.len() {
                    assert(e[i] == d[i]);
                } else {
                    assert(e[j] == d[j]);
                }
            }
        }
    }
}

/// Law: a template's variables name each placeholder of its text exactly
/// once: no name occurs twice, every name is a placeholder found in the text
/// and every placeholder found is among them.
pub proof fn law_variables_are_the_placeholders_once(names: Seq<Seq<char>>)
    ensures
        dedup(names).no_duplicates(),
        forall|x: Seq<char>| #[trigger] dedup(names).contains(x) <==> names.contains(x),
{
    lemma_dedup_prefix(names, names.len());
    assert(names.take(names.len() as int) =~= names);
}

/// The placeholder text `{name}`.
pub open spec fn braced(name: Seq<char>) -> Seq<char> {
    "{"@ + name + "}"@
}

/// The template after substituting the first `n` variables in order.
pub open spec fn substituted(raw: Seq<char>, vars: Seq<Seq<char>>, values: Map<Seq<char>, Seq<char>>, n: nat) -> Seq<char>
    decreases n,
{
    if n == 0 || n > vars.len() {
        raw
    } else {
        replace_spec(substituted(raw, vars, values, (n - 1) as nat), braced(vars[n - 1]), values[vars[n - 1]])
    }
}

/// The variables that have no value.
pub open spec fn missing_vars(vars: Seq<Seq<char>>, values: Map<Seq<char>, Seq<char>>) -> Seq<Seq<char>> {
    vars.filter(|v: Seq<char>| !values.contains_key(v))
}

/// A prompt template that extracts `{variable}` placeholders and supports
/// formatting with provided values.
#[derive(Debug, Clone)]
pub struct PromptTemplate {
    raw: String,
    variables: Vec<String>,
}

fn contains_string(v: &Vec<String>, s: &str) -> (r: bool)
    ensures
        r == views_of(v@).contains(s@),
{
    let mut i: usize = 0;
    while i < v.len()
        invariant
            i <= v@.len(),
            forall|j: int| 0 <= j < i ==> v@[j]@ != s@,
        decreases v@.len() - i,
    {
        if str_eq(v[i].as_str(), s) {
            assert(views_of(v@)[i as int] == s@);
            return true;
        }
        i = i + 1;
    }
    proof {
        if views_of(v@).contains(s@) {
            let j = choose|j: int| 0 <= j < views_of(v@).len() && views_of(v@)[j] == s@;
            assert(v@[j]@ == s@);
        }
    }
    false
}

impl PromptTemplate {
    pub closed spec fn raw_view(&self) -> Seq<char> {
        self.raw@
    }

    pub closed spec fn variables_view(&self) -> Seq<Seq<char>> {
        views_of(self.variables@)
    }

    /// The template's variables are the deduplicated placeholder names of
    /// its text.
    pub open spec fn wf(&self) -> bool {
        self.variables_view() == dedup(placeholder_matches(self.raw_view()))
    }

    /// Create a template from its text. An empty text is an error.
    pub fn new(template: &str) -> (r: Result<Self, SimseError>)
        ensures
            template@.len() == 0 <==> r is Err,
            r matches Err(e) ==> e matches SimseError::Template { code: TemplateErrorCode::Empty, .. }
                && e.message_text() == Some("Template string cannot be empty"@),
            r matches Ok(t) ==> t.wf() && t.raw_view() == template@,
    {
        if template.is_empty() {
            return Err(SimseError::template(TemplateErrorCode::Empty, "Template string cannot be empty"));
        }
        let found = placeholder_names(template);
        let ghost names = views_of(found@);
        let mut variables: Vec<String> = Vec::new();
        let mut i: usize = 0;
        while i < found.len()
            invariant
                i <= found@.len(),
                names == views_of(found@),
                views_of(variables@) == dedup_prefix(names, i as nat),
            decreases found@.len() - i,
        {
            let name = &found[i];
            if !contains_string(&variables, name.as_str()) {
                variables.push(name.clone());
                assert(views_of(variables@) =~= dedup_prefix(names, i as nat).push(names[i as int]));
            }
            i = i + 1;
        }
        Ok(PromptTemplate { raw: template.to_owned(), variables })
    }

    /// Substitute every placeholder. Variables without a value make it an
    /// error naming them (`Missing template variables: a, b`).
    pub fn format(&self, values: &ValueMap) -> (r: Result<String, SimseError>)
        requires
            values.wf(),
        ensures
            ({
                let missing = missing_vars(self.variables_view(), values.view_map());
                &&& missing.len() > 0 <==> r is Err
                &&& r matches Err(e) ==> e matches SimseError::Template { code: TemplateErrorCode::MissingVariables, .. }
                    && e.message_text() == Some("Missing template variables: "@ + join_seqs(missing, ", "@))
                &&& r matches Ok(s) ==> s@ == substituted(self.raw_view(), self.variables_view(), values.view_map(), self.variables_view().len())
            }),
    {
        let ghost vars = self.variables_view();
        let ghost vmap = values.view_map();
        let mut missing: Vec<String> = Vec::new();
        let mut i: usize = 0;
        while i < self.variables.len()
            invariant
                i <= self.variables@.len(),
                vars == views_of(self.variables@),
                vmap == values.view_map(),
                values.wf(),
                views_of(missing@) == vars.take(i as int).filter(|v: Seq<char>| !vmap.contains_key(v)),
            decreases self.variables@.len() - i,
        {
            let v = &self.variables[i];
            let present = values.contains_key(v.as_str());
            proof {
                reveal(Seq::filter);
                assert(vars.take(i + 1).drop_last() =~= vars.take(i as int));
            }
            if !present {
                missing.push(v.clone());
                assert(views_of(missing@) =~= vars.take(i as int).filter(|v: Seq<char>| !vmap.contains_key(v)).push(v@));
            }
            i = i + 1;
        }
        assert(vars.take(vars.len() as int) =~= vars);
        if missing.len() > 0 {
            let mut message = String::new();
            message.append("Missing template variables: ");
            let joined = join_strings(missing.as_slice(), ", ");
            message.append(joined.as_str());
            return Err(SimseError::template(TemplateErrorCode::MissingVariables, message.as_str()));
        }
        let raw_chars = chars_of(self.raw.as_str());
        let mut result: Vec<char> = raw_chars;
        let mut k: usize = 0;
        while k < self.variables.len()
            invariant
                k <= self.variables@.len(),
                vars == views_of(self.variables@),
                vmap == values.view_map(),
                values.wf(),
                missing_vars(vars, vmap).len() == 0,
                result@ == substituted(self.raw_view(), vars, vmap, k as nat),
            decreases self.variables@.len() - k,
        {
            let name = &self.variables[k];
            proof {
                assert(vmap.contains_key(vars[k as int])) by {
                    if !vmap.contains_key(vars[k as int]) {
                        lemma_filter_keeps(vars, vmap, k as int);
                    }
                }
            }
            let value = values.get(name.as_str());
            let mut placeholder: Vec<char> = Vec::new();
            placeholder.push('{');
            let name_chars = chars_of(name.as_str());
            crate::text::extend_chars(&mut placeholder, name_chars.as_slice());
            placeholder.push('}');
            proof {
                assert(placeholder@ =~= braced(vars[k as int])) by {
                    reveal_strlit("{");
                    reveal_strlit("}");
                }
            }
            match value {
                Some(val) => {
                    let val_chars = chars_of(val.as_str());
                    result = replace_chars(result.as_slice(), placeholder.as_slice(), val_chars.as_slice());
                },
                None => {},
            }
            k = k + 1;
        }
        Ok(string_of(result.as_slice()))
    }

    /// Returns `true` if the template contains any variable placeholders.
    pub fn has_variables(&self) -> (r: bool)
        ensures
            r == (self.variables_view().len() > 0),
    {
        self.variables.len() > 0
    }

    /// The deduplicated variable names in first-occurrence order.
    pub fn variables(&self) -> (r: Vec<&str>)
        ensures
            r@.len() == self.variables_view().len(),
            forall|i: int| 0 <= i < r@.len() ==> #[trigger] r@[i]@ == self.variables_view()[i],
    {
        let mut out: Vec<&str> = Vec::new();
        let mut i: usize = 0;
        while i < self.variables.len()
            invariant
                i <= self.variables@.len(),
                out@.len() == i,
                forall|j: int| 0 <= j < i ==> #[trigger] out@[j]@ == self.variables@[j]@,
            decreases self.variables@.len() - i,
        {
            out.push(self.variables[i].as_str());
            i = i + 1;
        }
        out
    }

    /// The raw template string.
    pub fn raw(&self) -> (r: &str)
        ensures
            r@ == self.raw_view(),
    {
        self.raw.as_str()
    }
}

proof fn lemma_filter_keeps(vars: Seq<Seq<char>>, vmap: Map<Seq<char>, Seq<char>>, k: int)
    requires
        0 <= k < vars.len(),
        !vmap.contains_key(vars[k]),
    ensures
        missing_vars(vars, vmap).len() > 0,
{
    let f = |v: Seq<char>| !vmap.contains_key(v);
    assert(vars.contains(vars[k]));
    vars.lemma_filter_contains_rev(f, vars[k]);
}

} // verus!
