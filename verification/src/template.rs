//! Code-based prompt template system with variable substitution.
//!
//! Templates use `{{variable}}` references. A reference opens at `{{` and
//! closes at the first following `}}`; a later `{{` before the close
//! restarts the reference. The reference name is the text between the
//! braces with surrounding whitespace trimmed; a padded reference (one
//! whose raw text is not exactly its name) is left in place verbatim, as
//! is any unterminated reference.

use vstd::prelude::*;

use crate::text::is_space_char;

verus! {

/// Errors that can occur during template operations.
#[derive(Debug)]
pub enum TemplateError {
    /// A required variable was not provided.
    MissingVariable {
        /// Name of the missing variable.
        name: String,
    },
    /// Template rendering failed.
    RenderError {
        /// Reason for the failure.
        reason: String,
    },
}

/// Result alias for template operations.
pub type TemplateResult<T> = Result<T, TemplateError>;

/// The text with its leading whitespace removed.
pub open spec fn spec_trim_front(s: Seq<char>) -> Seq<char>
    decreases s.len(),
{
    if s.len() > 0 && is_space_char(s[0]) {
        spec_trim_front(s.drop_first())
    } else {
        s
    }
}

/// The text with its trailing whitespace removed.
pub open spec fn spec_trim_back(s: Seq<char>) -> Seq<char>
    decreases s.len(),
{
    if s.len() > 0 && is_space_char(s.last()) {
        spec_trim_back(s.drop_last())
    } else {
        s
    }
}

/// The text with surrounding whitespace removed.
pub open spec fn spec_trim(s: Seq<char>) -> Seq<char> {
    spec_trim_back(spec_trim_front(s))
}

proof fn lemma_trim_front_skip(s: Seq<char>, a: int)
    requires
        0 <= a <= s.len(),
        forall|i: int| 0 <= i < a ==> is_space_char(s[i]),
        a < s.len() ==> !is_space_char(s[a]),
    ensures
        spec_trim_front(s) =~= s.skip(a),
    decreases a,
{
    if a == 0 {
        assert(s.skip(0) =~= s);
    } else {
        assert(is_space_char(s[0]));
        lemma_trim_front_skip(s.drop_first(), a - 1);
        assert(s.drop_first().skip(a - 1) =~= s.skip(a));
    }
}

proof fn lemma_trim_back_take(s: Seq<char>, b: int)
    requires
        0 <= b <= s.len(),
        forall|i: int| b <= i < s.len() ==> is_space_char(s[i]),
        b > 0 ==> !is_space_char(s[b - 1]),
    ensures
        spec_trim_back(s) =~= s.take(b),
    decreases s.len() - b,
{
    if b == s.len() {
        assert(s.take(b) =~= s);
    } else {
        assert(is_space_char(s.last()));
        lemma_trim_back_take(s.drop_last(), b);
        assert(s.drop_last().take(b) =~= s.take(b));
    }
}

/// Characterises the trim of a text by the bounds of its non-whitespace
/// middle.
proof fn lemma_trim_is_subrange(s: Seq<char>, a: int, b: int)
    requires
        0 <= a <= b <= s.len(),
        forall|i: int| 0 <= i < a ==> is_space_char(s[i]),
        forall|i: int| b <= i < s.len() ==> is_space_char(s[i]),
        a < b ==> !is_space_char(s[a]) && !is_space_char(s[b - 1]),
    ensures
        a < b ==> spec_trim(s) =~= s.subrange(a, b),
        a == b ==> spec_trim(s) =~= Seq::<char>::empty(),
{
    if a < b {
        lemma_trim_front_skip(s, a);
        let t = s.skip(a);
        lemma_trim_back_take(t, b - a);
        assert(t.take(b - a) =~= s.subrange(a, b));
    } else {
        lemma_trim_front_skip(s, s.len() as int);
        let t = s.skip(s.len() as int);
        assert(t =~= Seq::<char>::empty());
        lemma_trim_back_take(t, 0);
        assert(t.take(0) =~= Seq::<char>::empty());
    }
}

/// Whether a `{{` opens at position `i`.
pub open spec fn spec_open_at(t: Seq<char>, i: int) -> bool {
    i + 1 < t.len() && t[i] == '{' && t[i + 1] == '{'
}

/// Whether a `}}` closes at position `i`.
pub open spec fn spec_close_at(t: Seq<char>, i: int) -> bool {
    i + 1 < t.len() && t[i] == '}' && t[i + 1] == '}'
}

/// The variable references found from position `i` on; `var_start` is the
/// start of the reference currently open, if one is.
pub open spec fn spec_refs_from(t: Seq<char>, i: int, var_start: Option<int>) -> Seq<Seq<char>>
    decreases t.len() - i,
{
    if i < 0 || i >= t.len() {
        Seq::empty()
    } else if spec_open_at(t, i) {
        spec_refs_from(t, i + 2, Some(i + 2))
    } else if var_start is Some && spec_close_at(t, i) {
        let raw = t.subrange(var_start.unwrap(), i);
        let rest = spec_refs_from(t, i + 2, None);
        if raw.len() > 0 {
            seq![spec_trim(raw)] + rest
        } else {
            rest
        }
    } else {
        spec_refs_from(t, i + 1, var_start)
    }
}

/// The variable references of a template, in order of appearance.
pub open spec fn spec_refs(t: Seq<char>) -> Seq<Seq<char>> {
    spec_refs_from(t, 0, None)
}

/// The value bound to `name` in an association list, a later binding
/// superseding an earlier one.
pub open spec fn spec_binding(s: Seq<(Seq<char>, Seq<char>)>, name: Seq<char>) -> Option<Seq<char>>
    decreases s.len(),
{
    if s.len() == 0 {
        None
    } else if s.last().0 == name {
        Some(s.last().1)
    } else {
        spec_binding(s.drop_last(), name)
    }
}

/// The value a render uses for `name`: a runtime binding first, else a
/// template default.
pub open spec fn spec_lookup(
    vars: Seq<(Seq<char>, Seq<char>)>,
    runtime: Seq<(Seq<char>, Seq<char>)>,
    name: Seq<char>,
) -> Option<Seq<char>> {
    match spec_binding(runtime, name) {
        Some(v) => Some(v),
        None => spec_binding(vars, name),
    }
}

/// What one closed reference contributes to the output: the bound value
/// for an exact (unpadded) reference, nothing for an exact reference with
/// no binding, and the reference text itself verbatim otherwise.
pub open spec fn spec_substitute(
    raw: Seq<char>,
    vars: Seq<(Seq<char>, Seq<char>)>,
    runtime: Seq<(Seq<char>, Seq<char>)>,
) -> Seq<char> {
    let name = spec_trim(raw);
    match spec_lookup(vars, runtime, name) {
        Some(v) => if name == raw {
            v
        } else {
            "{{"@ + raw + "}}"@
        },
        None => if name == raw {
            Seq::empty()
        } else {
            "{{"@ + raw + "}}"@
        },
    }
}

/// The rendering of a template from position `i` on: literal text is
/// copied, each closed reference contributes `spec_substitute`, and a
/// reference whose exact name is required but unbound fails with that
/// name.
pub open spec fn spec_render_from(
    t: Seq<char>,
    i: int,
    var_start: Option<int>,
    vars: Seq<(Seq<char>, Seq<char>)>,
    runtime: Seq<(Seq<char>, Seq<char>)>,
    required: Seq<Seq<char>>,
) -> Result<Seq<char>, Seq<char>>
    decreases t.len() - i,
{
    if i < 0 || i >= t.len() {
        match var_start {
            Some(vs) => Ok("{{"@ + t.subrange(vs, t.len() as int)),
            None => Ok(Seq::empty()),
        }
    } else if spec_open_at(t, i) {
        let rest = spec_render_from(t, i + 2, Some(i + 2), vars, runtime, required);
        match var_start {
            Some(vs) => match rest {
                Ok(out) => Ok("{{"@ + t.subrange(vs, i) + out),
                Err(e) => Err(e),
            },
            None => rest,
        }
    } else if var_start is Some && spec_close_at(t, i) {
        let raw = t.subrange(var_start.unwrap(), i);
        let name = spec_trim(raw);
        if spec_lookup(vars, runtime, name) is None && name == raw && required.contains(name) {
            Err(name)
        } else {
            match spec_render_from(t, i + 2, None, vars, runtime, required) {
                Ok(out) => Ok(spec_substitute(raw, vars, runtime) + out),
                Err(e) => Err(e),
            }
        }
    } else if var_start is Some {
        spec_render_from(t, i + 1, var_start, vars, runtime, required)
    } else {
        match spec_render_from(t, i + 1, var_start, vars, runtime, required) {
            Ok(out) => Ok(seq![t[i]] + out),
            Err(e) => Err(e),
        }
    }
}

/// The rendering of a whole template.
pub open spec fn spec_render(
    t: Seq<char>,
    vars: Seq<(Seq<char>, Seq<char>)>,
    runtime: Seq<(Seq<char>, Seq<char>)>,
    required: Seq<Seq<char>>,
) -> Result<Seq<char>, Seq<char>> {
    spec_render_from(t, 0, None, vars, runtime, required)
}

/// Mathematical model of a prompt template.
pub ghost struct PromptTemplateModel {
    /// The template text.
    pub template: Seq<char>,
    /// Default variable bindings, later bindings superseding earlier ones.
    pub variables: Seq<(Seq<char>, Seq<char>)>,
    /// Names that must be bound at render time.
    pub required_variables: Seq<Seq<char>>,
}

/// A code-based prompt template with variable substitution.
#[derive(Debug)]
pub struct PromptTemplate {
    template: String,
    variables: Vec<(String, String)>,
    required_variables: Vec<String>,
}

impl View for PromptTemplate {
    type V = PromptTemplateModel;

    closed spec fn view(&self) -> PromptTemplateModel {
        PromptTemplateModel {
            template: self.template@,
            variables: self.variables@.map_values(|p: (String, String)| (p.0@, p.1@)),
            required_variables: self.required_variables.deep_view(),
        }
    }
}

impl Clone for PromptTemplate {
    fn clone(&self) -> (res: Self)
        ensures
            res@ == self@,
    {
        let mut variables: Vec<(String, String)> = Vec::new();
        let n = self.variables.len();
        let mut i: usize = 0;
        while i < n
            invariant
                0 <= i <= n,
                n == self.variables@.len(),
                variables@.len() == i,
                forall|j: int|
                    0 <= j < i ==> (#[trigger] variables@[j]).0@ == self.variables@[j].0@
                        && variables@[j].1@ == self.variables@[j].1@,
            decreases n - i,
        {
            let pair = (self.variables[i].0.clone(), self.variables[i].1.clone());
            variables.push(pair);
            i = i + 1;
        }
        let required_variables = self.required_variables.clone();
        let res = PromptTemplate {
            template: self.template.clone(),
            variables,
            required_variables,
        };
        proof {
            assert(res.required_variables.deep_view() =~= self.required_variables.deep_view());
            assert(res@.variables =~= self@.variables);
        }
        res
    }
}

/// Returns whether the character at `i` is whitespace.
fn char_is_space(t: &str, i: usize) -> (r: bool)
    requires
        i < t@.len(),
    ensures
        r == is_space_char(t@[i as int]),
{
    crate::text::char_is_space(t.get_char(i))
}

/// Finds the trimmed bounds of `t`'s characters in `[from, to)`: the
/// subrange without surrounding whitespace.
fn trim_bounds(t: &str, from: usize, to: usize) -> (r: (usize, usize))
    requires
        0 <= from <= to <= t@.len(),
    ensures
        from <= r.0 <= r.1 <= to,
        r.0 < r.1 ==> spec_trim(t@.subrange(from as int, to as int)) == t@.subrange(
            r.0 as int,
            r.1 as int,
        ),
        r.0 == r.1 ==> spec_trim(t@.subrange(from as int, to as int)) == Seq::<char>::empty(),
        forall|i: int| from <= i < r.0 ==> is_space_char(t@[i]),
        forall|i: int| r.1 <= i < to ==> is_space_char(t@[i]),
{
    let ghost raw = t@.subrange(from as int, to as int);
    let mut a = from;
    while a < to && char_is_space(t, a)
        invariant
            from <= a <= to <= t@.len(),
            forall|i: int| from <= i < a ==> is_space_char(t@[i]),
        decreases to - a,
    {
        a = a + 1;
    }
    let mut b = to;
    while b > a && char_is_space(t, b - 1)
        invariant
            a <= b <= to,
            a <= to,
            from <= a,
            to <= t@.len(),
            forall|i: int| from <= i < a ==> is_space_char(t@[i]),
            forall|i: int| b <= i < to ==> is_space_char(t@[i]),
        decreases b,
    {
        b = b - 1;
    }
    proof {
        assert forall|i: int| 0 <= i < (a - from) implies is_space_char(raw[i]) by {
            assert(raw[i] == t@[from + i]);
        }
        assert forall|i: int| (b - from) <= i < raw.len() implies is_space_char(raw[i]) by {
            assert(raw[i] == t@[from + i]);
        }
        if a < b {
            assert(!is_space_char(raw[a - from]));
            assert(!is_space_char(raw[b - from - 1]));
        }
        lemma_trim_is_subrange(raw, a - from, b - from);
        if a < b {
            assert(raw.subrange(a - from, b - from) =~= t@.subrange(a as int, b as int));
        }
    }
    (a, b)
}

/// Extracts variable references from a template, in order of appearance.
pub fn extract_variable_refs(template: &str) -> (r: Vec<String>)
    ensures
        r.deep_view() == spec_refs(template@),
{
    let n = template.unicode_len();
    let mut out: Vec<String> = Vec::new();
    let mut i: usize = 0;
    let mut var_start: Option<usize> = None;
    while i < n
        invariant
            0 <= i <= n,
            n == template@.len(),
            match var_start {
                Some(vs) => 0 <= vs <= i,
                None => true,
            },
            out.deep_view() + spec_refs_from(
                template@,
                i as int,
                match var_start {
                    Some(vs) => Some(vs as int),
                    None => None,
                },
            ) =~= spec_refs(template@),
        decreases n - i,
    {
        let c = template.get_char(i);
        let open = c == '{' && i + 1 < n && template.get_char(i + 1) == '{';
        let close = c == '}' && i + 1 < n && template.get_char(i + 1) == '}';
        if open {
            var_start = Some(i + 2);
            i = i + 2;
        } else if var_start.is_some() && close {
            let vs = var_start.unwrap();
            if i > vs {
                let (a, b) = trim_bounds(template, vs, i);
                let name = if a < b {
                    template.substring_char(a, b).to_owned()
                } else {
                    String::new()
                };
                let ghost before = out.deep_view();
                out.push(name);
                proof {
                    let raw = template@.subrange(vs as int, i as int);
                    assert(out.deep_view() =~= before.push(spec_trim(raw)));
                    assert(before.push(spec_trim(raw)) + spec_refs_from(
                        template@,
                        i as int + 2,
                        None,
                    ) =~= before + (seq![spec_trim(raw)] + spec_refs_from(
                        template@,
                        i as int + 2,
                        None,
                    )));
                }
            }
            var_start = None;
            i = i + 2;
        } else {
            i = i + 1;
        }
    }
    proof {
        assert(out.deep_view() + spec_refs_from(
            template@,
            n as int,
            match var_start {
                Some(vs) => Some(vs as int),
                None => None,
            },
        ) =~= out.deep_view());
    }
    out
}

impl PromptTemplate {
    /// Creates a new template with the supplied text and no bindings.
    pub fn new(template: &str) -> (r: PromptTemplate)
        ensures
            r@.template == template@,
            r@.variables == Seq::<(Seq<char>, Seq<char>)>::empty(),
            r@.required_variables == Seq::<Seq<char>>::empty(),
    {
        let r = PromptTemplate {
            template: template.to_owned(),
            variables: Vec::new(),
            required_variables: Vec::new(),
        };
        proof {
            assert(r@.variables =~= Seq::<(Seq<char>, Seq<char>)>::empty());
            assert(r@.required_variables =~= Seq::<Seq<char>>::empty());
        }
        r
    }

    /// Returns a builder for constructing templates.
    pub fn builder(template: &str) -> (r: TemplateBuilder)
        ensures
            r@.template == template@,
            r@.variables == Seq::<(Seq<char>, Seq<char>)>::empty(),
            r@.required_variables == Seq::<Seq<char>>::empty(),
    {
        TemplateBuilder::new(template)
    }

    /// Sets a variable value, superseding an earlier binding of the same
    /// name.
    pub fn set_variable(&mut self, name: &str, value: &str)
        ensures
            final(self)@.template == old(self)@.template,
            final(self)@.required_variables == old(self)@.required_variables,
            final(self)@.variables == old(self)@.variables.push((name@, value@)),
    {
        self.variables.push((name.to_owned(), value.to_owned()));
        proof {
            assert(self@.variables =~= old(self)@.variables.push((name@, value@)));
        }
    }

    /// Returns the value of a variable if set.
    pub fn get_variable(&self, name: &str) -> (r: Option<&str>)
        ensures
            match r {
                Some(v) => spec_binding(self@.variables, name@) == Some(v@),
                None => spec_binding(self@.variables, name@) is None,
            },
    {
        let owned: String = name.to_owned();
        let n = self.variables.len();
        proof {
            assert(self@.variables.take(n as int) =~= self@.variables);
        }
        let mut i: usize = n;
        while i > 0
            invariant
                0 <= i <= n,
                n == self.variables@.len(),
                n == self@.variables.len(),
                owned@ == name@,
                spec_binding(self@.variables, name@) == spec_binding(
                    self@.variables.take(i as int),
                    name@,
                ),
            decreases i,
        {
            i = i - 1;
            if self.variables[i].0 == owned {
                proof {
                    assert(self@.variables.take(i as int + 1).last() == self@.variables[i as int]);
                }
                return Some(self.variables[i].1.as_str());
            }
            proof {
                assert(self@.variables.take(i as int + 1).last() == self@.variables[i as int]);
                assert(self@.variables.take(i as int + 1).drop_last() =~= self@.variables.take(
                    i as int,
                ));
            }
        }
        proof {
            assert(self@.variables.take(0) =~= Seq::<(Seq<char>, Seq<char>)>::empty());
        }
        None
    }

    /// Renders the template with the default bindings alone.
    ///
    /// Fails with the first required reference that has no binding.
    pub fn render(&self) -> (r: TemplateResult<String>)
        ensures
            match r {
                Ok(out) => spec_render(
                    self@.template,
                    self@.variables,
                    Seq::empty(),
                    self@.required_variables,
                ) == Ok::<Seq<char>, Seq<char>>(out@),
                Err(e) => e matches TemplateError::MissingVariable { name } && spec_render(
                    self@.template,
                    self@.variables,
                    Seq::empty(),
                    self@.required_variables,
                ) == Err::<Seq<char>, Seq<char>>(name@),
            },
    {
        let runtime: Vec<(String, String)> = Vec::new();
        proof {
            assert(runtime@.map_values(|p: (String, String)| (p.0@, p.1@)) =~= Seq::<(
                Seq<char>,
                Seq<char>,
            )>::empty());
        }
        self.render_with(&runtime)
    }

    /// Renders the template with additional runtime bindings, which
    /// override the template's defaults.
    ///
    /// Fails with the first required reference that has no binding.
    #[verifier::loop_isolation(false)]
    pub fn render_with(&self, runtime_vars: &Vec<(String, String)>) -> (r: TemplateResult<String>)
        ensures
            ({
                let runtime = runtime_vars@.map_values(|p: (String, String)| (p.0@, p.1@));
                match r {
                    Ok(out) => spec_render(
                        self@.template,
                        self@.variables,
                        runtime,
                        self@.required_variables,
                    ) == Ok::<Seq<char>, Seq<char>>(out@),
                    Err(e) => e matches TemplateError::MissingVariable { name } && spec_render(
                        self@.template,
                        self@.variables,
                        runtime,
                        self@.required_variables,
                    ) == Err::<Seq<char>, Seq<char>>(name@),
                }
            }),
    {
        let ghost runtime = runtime_vars@.map_values(|p: (String, String)| (p.0@, p.1@));
        let ghost vars = self@.variables;
        let ghost required = self@.required_variables;
        let ghost target = spec_render(self@.template, vars, runtime, required);
        let t = &self.template;
        let n = t.unicode_len();
        let mut out = String::new();
        let mut i: usize = 0;
        let mut var_start: Option<usize> = None;
        proof {
            reveal_strlit("{{");
            reveal_strlit("}}");
        }
        while i < n
            invariant
                0 <= i <= n,
                match var_start {
                    Some(vs) => 0 <= vs <= i,
                    None => true,
                },
                ({
                    let tail = spec_render_from(
                        t@,
                        i as int,
                        match var_start {
                            Some(vs) => Some(vs as int),
                            None => None,
                        },
                        vars,
                        runtime,
                        required,
                    );
                    match tail {
                        Ok(rest) => target == Ok::<Seq<char>, Seq<char>>(out@ + rest),
                        Err(e) => target == Err::<Seq<char>, Seq<char>>(e),
                    }
                }),
            decreases n - i,
        {
            let ghost vs_old: Option<int> = match var_start {
                Some(vs) => Some(vs as int),
                None => None,
            };
            let ghost out_old = out@;
            let ghost tail_old = spec_render_from(t@, i as int, vs_old, vars, runtime, required);
            let c = t.get_char(i);
            let open = c == '{' && i + 1 < n && t.get_char(i + 1) == '{';
            let close = c == '}' && i + 1 < n && t.get_char(i + 1) == '}';
            if open {
                match var_start {
                    Some(vs) => {
                        out.append("{{");
                        let swallowed = t.substring_char(vs, i);
                        out.append(swallowed);
                    },
                    None => {},
                }
                i = i + 2;
                var_start = Some(i);
                proof {
                    assert(spec_open_at(t@, i - 2));
                    let tail_new = spec_render_from(t@, i as int, Some(i as int), vars, runtime, required);
                    match vs_old {
                        Some(vs) => {
                            if tail_new is Ok {
                                assert(out@ =~= (out_old + "{{"@) + t@.subrange(vs, i - 2));
                                assert(out_old + (("{{"@ + t@.subrange(vs, i - 2)) + tail_new->Ok_0)
                                    =~= out@ + tail_new->Ok_0);
                            }
                        },
                        None => {},
                    }
                }
            } else if var_start.is_some() && close {
                let vs = var_start.unwrap();
                let ghost raw = t@.subrange(vs as int, i as int);
                let (a, b) = trim_bounds(t, vs, i);
                let name: String = if a < b {
                    t.substring_char(a, b).to_owned()
                } else {
                    String::new()
                };
                proof {
                    assert(name@ == spec_trim(raw));
                }
                let padded = !(a == vs && b == i);
                proof {
                    if padded {
                        assert(name@.len() < raw.len());
                        assert(name@ != raw);
                    } else {
                        assert(raw =~= name@);
                        assert(name@ == raw);
                    }
                }
                let value = self.lookup(runtime_vars, name.as_str());
                let found = value.is_some();
                match value {
                    Some(v) => {
                        let owned_value = v.to_owned();
                        if !padded {
                            out.append(owned_value.as_str());
                        } else {
                            out.append("{{");
                            let raw_text = t.substring_char(vs, i);
                            out.append(raw_text);
                            out.append("}}");
                        }
                    },
                    None => {
                        if !padded && self.is_required(name.as_str()) {
                            proof {
                                assert(spec_close_at(t@, i as int));
                                assert(tail_old == Err::<Seq<char>, Seq<char>>(name@));
                            }
                            return Err(TemplateError::MissingVariable { name });
                        }
                        if padded {
                            out.append("{{");
                            let raw_text = t.substring_char(vs, i);
                            out.append(raw_text);
                            out.append("}}");
                        }
                    },
                }
                var_start = None;
                i = i + 2;
                proof {
                    assert(spec_close_at(t@, i - 2));
                    let sub = spec_substitute(raw, vars, runtime);
                    if padded {
                        assert(sub == "{{"@ + raw + "}}"@);
                        assert(out@ =~= (out_old + "{{"@ + raw) + "}}"@);
                        assert(out@ =~= out_old + sub);
                    } else {
                        if found {
                            assert(out@ =~= out_old + sub);
                        } else {
                            assert(sub =~= Seq::<char>::empty());
                            assert(out@ =~= out_old + sub);
                        }
                    }
                    let tail_new = spec_render_from(t@, i as int, None, vars, runtime, required);
                    if tail_new is Ok {
                        assert(out_old + (sub + tail_new->Ok_0) =~= out@ + tail_new->Ok_0);
                    }
                }
            } else if var_start.is_some() {
                i = i + 1;
            } else {
                let ch = t.substring_char(i, i + 1);
                out.append(ch);
                i = i + 1;
                proof {
                    assert(seq![t@[i - 1]] =~= t@.subrange(i - 1, i as int));
                    let tail_new = spec_render_from(t@, i as int, None, vars, runtime, required);
                    if tail_new is Ok {
                        assert(out_old + (seq![t@[i - 1]] + tail_new->Ok_0) =~= out@
                            + tail_new->Ok_0);
                    }
                }
            }
        }
        let ghost out_before = out@;
        match var_start {
            Some(vs) => {
                out.append("{{");
                let rest = t.substring_char(vs, n);
                out.append(rest);
                proof {
                    assert(out_before + ("{{"@ + t@.subrange(vs as int, n as int)) =~= out@);
                }
            },
            None => {},
        }
        proof {
            assert(out@ + Seq::<char>::empty() =~= out@);
        }
        Ok(out)
    }

    /// Looks up a name: a runtime binding first, else a template default.
    fn lookup<'a>(&'a self, runtime_vars: &'a Vec<(String, String)>, name: &str) -> (r: Option<
        &'a str,
    >)
        ensures
            ({
                let runtime = runtime_vars@.map_values(|p: (String, String)| (p.0@, p.1@));
                match r {
                    Some(v) => spec_lookup(self@.variables, runtime, name@) == Some(v@),
                    None => spec_lookup(self@.variables, runtime, name@) is None,
                }
            }),
    {
        let ghost runtime = runtime_vars@.map_values(|p: (String, String)| (p.0@, p.1@));
        let owned: String = name.to_owned();
        let n = runtime_vars.len();
        proof {
            assert(runtime.take(n as int) =~= runtime);
        }
        let mut i: usize = n;
        while i > 0
            invariant
                0 <= i <= n,
                n == runtime_vars@.len(),
                n == runtime.len(),
                owned@ == name@,
                runtime == runtime_vars@.map_values(|p: (String, String)| (p.0@, p.1@)),
                spec_binding(runtime, name@) == spec_binding(runtime.take(i as int), name@),
            decreases i,
        {
            i = i - 1;
            if runtime_vars[i].0 == owned {
                proof {
                    assert(runtime.take(i as int + 1).last() == runtime[i as int]);
                }
                return Some(runtime_vars[i].1.as_str());
            }
            proof {
                assert(runtime.take(i as int + 1).last() == runtime[i as int]);
                assert(runtime.take(i as int + 1).drop_last() =~= runtime.take(i as int));
            }
        }
        proof {
            assert(runtime.take(0) =~= Seq::<(Seq<char>, Seq<char>)>::empty());
        }
        self.get_variable(name)
    }

    /// Returns whether the name is declared required.
    fn is_required(&self, name: &str) -> (r: bool)
        ensures
            r == self@.required_variables.contains(name@),
    {
        let owned: String = name.to_owned();
        let n = self.required_variables.len();
        let mut i: usize = 0;
        while i < n
            invariant
                0 <= i <= n,
                n == self.required_variables@.len(),
                owned@ == name@,
                forall|j: int| 0 <= j < i ==> self.required_variables.deep_view()[j] != name@,
            decreases n - i,
        {
            if self.required_variables[i] == owned {
                proof {
                    assert(self.required_variables.deep_view()[i as int] == name@);
                }
                return true;
            }
            proof {
                assert(self.required_variables.deep_view()[i as int]
                    == self.required_variables@[i as int]@);
            }
            i = i + 1;
        }
        proof {
            if self@.required_variables.contains(name@) {
                let j = choose|j: int|
                    0 <= j < self@.required_variables.len() && self@.required_variables[j]
                        == name@;
                assert(self.required_variables.deep_view()[j] == name@);
            }
        }
        false
    }

    /// Returns the raw template string.
    pub fn template(&self) -> (r: &str)
        ensures
            r@ == self@.template,
    {
        self.template.as_str()
    }

    /// Returns the configured default bindings, later bindings superseding
    /// earlier ones.
    pub fn variables(&self) -> (r: &Vec<(String, String)>)
        ensures
            r@.map_values(|p: (String, String)| (p.0@, p.1@)) == self@.variables,
    {
        &self.variables
    }
}

/// Builder for constructing prompt templates.
#[derive(Debug)]
pub struct TemplateBuilder {
    template: String,
    variables: Vec<(String, String)>,
    required_variables: Vec<String>,
}

impl View for TemplateBuilder {
    type V = PromptTemplateModel;

    closed spec fn view(&self) -> PromptTemplateModel {
        PromptTemplateModel {
            template: self.template@,
            variables: self.variables@.map_values(|p: (String, String)| (p.0@, p.1@)),
            required_variables: self.required_variables.deep_view(),
        }
    }
}

impl TemplateBuilder {
    /// Creates a new builder with the supplied template text.
    pub fn new(template: &str) -> (r: TemplateBuilder)
        ensures
            r@.template == template@,
            r@.variables == Seq::<(Seq<char>, Seq<char>)>::empty(),
            r@.required_variables == Seq::<Seq<char>>::empty(),
    {
        let r = TemplateBuilder {
            template: template.to_owned(),
            variables: Vec::new(),
            required_variables: Vec::new(),
        };
        proof {
            assert(r@.variables =~= Seq::<(Seq<char>, Seq<char>)>::empty());
            assert(r@.required_variables =~= Seq::<Seq<char>>::empty());
        }
        r
    }

    /// Sets a variable with a default value.
    pub fn with_variable(self, name: &str, value: &str) -> (r: TemplateBuilder)
        ensures
            r@.template == self@.template,
            r@.required_variables == self@.required_variables,
            r@.variables == self@.variables.push((name@, value@)),
    {
        let TemplateBuilder { template, mut variables, required_variables } = self;
        variables.push((name.to_owned(), value.to_owned()));
        let r = TemplateBuilder { template, variables, required_variables };
        proof {
            assert(r@.variables =~= self@.variables.push((name@, value@)));
        }
        r
    }

    /// Declares a required variable that must be bound at render time.
    pub fn with_required_variable(self, name: &str) -> (r: TemplateBuilder)
        ensures
            r@.template == self@.template,
            r@.variables == self@.variables,
            r@.required_variables == self@.required_variables.push(name@),
    {
        let TemplateBuilder { template, variables, mut required_variables } = self;
        required_variables.push(name.to_owned());
        let r = TemplateBuilder { template, variables, required_variables };
        proof {
            assert(r@.required_variables =~= self@.required_variables.push(name@));
        }
        r
    }

    /// Builds the template from the collected state.
    pub fn build(self) -> (r: TemplateResult<PromptTemplate>)
        ensures
            r matches Ok(t) && t@ == self@,
    {
        let TemplateBuilder { template, variables, required_variables } = self;
        Ok(PromptTemplate { template, variables, required_variables })
    }
}

} // verus!
