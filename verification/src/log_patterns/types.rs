//! Pattern parts: variables, examples, template descriptions.
use std::collections::HashMap;
use vstd::prelude::*;
use crate::text::{replace_all, replace_all_str, has_prefix, has_suffix, starts_with, ends_with,
    trim_start_all, trim_end_all, trim_start_end, lower_text, to_lowercase, decimal,
    usize_to_decimal, concat2, views_of, lemma_replace_all_absent, lemma_replace_all_whole};
use super::sdr::{SdrType, type_name_spec, placeholder_spec};

verus! {

/// A variable position in a pattern template.
#[derive(Debug, Clone)]
pub struct Variable {
    /// Index of the template token.
    pub index: usize,
    /// Name of the variable.
    pub name: String,
    /// Type of the variable, such as "ip" or "num".
    pub var_type: String,
}

/// The abstract value of a variable: (index, name, type).
pub type VariableView = (usize, Seq<char>, Seq<char>);

impl View for Variable {
    type V = VariableView;

    open spec fn view(&self) -> VariableView {
        (self.index, self.name@, self.var_type@)
    }
}

impl Variable {
    /// A variable at `index` with the given name and type.
    pub fn new(index: usize, name: String, var_type: String) -> (r: Self)
        ensures
            r.index == index,
            r.name == name,
            r.var_type == var_type,
    {
        Variable { index, name, var_type }
    }
}

/// A log line that a pattern matches.
#[derive(Debug, Clone)]
pub struct Example {
    /// The log line.
    pub log_message: String,
    /// Values of the pattern's variables in this line.
    pub variables: HashMap<String, String>,
}

impl Example {
    /// An example without variable values.
    pub fn new(log_message: String) -> (r: Self)
        ensures
            r.log_message == log_message,
            r.variables@ == Map::<String, String>::empty(),
    {
        Example { log_message, variables: HashMap::new() }
    }

    /// The same example with the given variable values.
    pub fn with_variables(self, variables: HashMap<String, String>) -> (r: Self)
        ensures
            r.log_message == self.log_message,
            r.variables == variables,
    {
        Example { log_message: self.log_message, variables }
    }
}

/// An extracted log pattern.
///
/// The share of all logs that a pattern covers is `frequency` over the number of logs
/// analyzed; callers that report it as a percentage compute it from these two counts.
#[derive(Debug, Clone)]
pub struct Pattern {
    /// Identifier of the pattern, such as "p0".
    pub pattern_id: String,
    /// Template with typed placeholders, such as "User <:STRING> logged in from <:IP>".
    pub template: String,
    /// Template with every placeholder shown as "*".
    pub description: String,
    /// Number of logs that the pattern covers.
    pub frequency: usize,
    /// Whether the pattern is marked as an anomaly.
    pub is_anomaly: bool,
    /// Variables of the template.
    pub variables: Vec<Variable>,
    /// Example log lines.
    pub examples: Vec<Example>,
}

impl Pattern {
    /// A pattern with the given template, its description, no variables and no examples.
    pub fn new(pattern_id: String, template: String, frequency: usize) -> (r: Self)
        ensures
            r.pattern_id == pattern_id,
            r.template == template,
            r.description@ == description_spec(template@),
            r.frequency == frequency,
            !r.is_anomaly,
            r.variables@.len() == 0,
            r.examples@.len() == 0,
    {
        let description = describe_template(template.as_str());
        Pattern {
            pattern_id,
            template,
            description,
            frequency,
            is_anomaly: false,
            variables: Vec::new(),
            examples: Vec::new(),
        }
    }

    /// The same pattern with the given variables.
    pub fn with_variables(self, variables: Vec<Variable>) -> (r: Self)
        ensures
            r == (Pattern { variables, ..self }),
    {
        Pattern { variables, ..self }
    }

    /// The same pattern with the given examples.
    pub fn with_examples(self, examples: Vec<Example>) -> (r: Self)
        ensures
            r == (Pattern { examples, ..self }),
    {
        Pattern { examples, ..self }
    }

    /// The same pattern, marked as an anomaly.
    pub fn mark_anomaly(self) -> (r: Self)
        ensures
            r == (Pattern { is_anomaly: true, ..self }),
    {
        Pattern { is_anomaly: true, ..self }
    }
}

/// The human-readable form of a template: every typed placeholder and "<*>" becomes "*".
pub open spec fn description_spec(t: Seq<char>) -> Seq<char> {
    let t1 = replace_all(t, "<:IP>"@, "*"@);
    let t2 = replace_all(t1, "<:NUM>"@, "*"@);
    let t3 = replace_all(t2, "<:UUID>"@, "*"@);
    let t4 = replace_all(t3, "<:TIMESTAMP>"@, "*"@);
    let t5 = replace_all(t4, "<:PATH>"@, "*"@);
    let t6 = replace_all(t5, "<:URL>"@, "*"@);
    let t7 = replace_all(t6, "<:EMAIL>"@, "*"@);
    let t8 = replace_all(t7, "<:HEX>"@, "*"@);
    let t9 = replace_all(t8, "<:STRING>"@, "*"@);
    replace_all(t9, "<*>"@, "*"@)
}

/// The human-readable form of a template, with placeholders shown as "*".
pub fn describe_template(template: &str) -> (r: String)
    ensures
        r@ == description_spec(template@),
{
    proof {
        reveal_strlit("<:IP>");
        reveal_strlit("<:NUM>");
        reveal_strlit("<:UUID>");
        reveal_strlit("<:TIMESTAMP>");
        reveal_strlit("<:PATH>");
        reveal_strlit("<:URL>");
        reveal_strlit("<:EMAIL>");
        reveal_strlit("<:HEX>");
        reveal_strlit("<:STRING>");
        reveal_strlit("<*>");
    }
    let t1 = replace_all_str(template, "<:IP>", "*");
    let t2 = replace_all_str(t1.as_str(), "<:NUM>", "*");
    let t3 = replace_all_str(t2.as_str(), "<:UUID>", "*");
    let t4 = replace_all_str(t3.as_str(), "<:TIMESTAMP>", "*");
    let t5 = replace_all_str(t4.as_str(), "<:PATH>", "*");
    let t6 = replace_all_str(t5.as_str(), "<:URL>", "*");
    let t7 = replace_all_str(t6.as_str(), "<:EMAIL>", "*");
    let t8 = replace_all_str(t7.as_str(), "<:HEX>", "*");
    let t9 = replace_all_str(t8.as_str(), "<:STRING>", "*");
    replace_all_str(t9.as_str(), "<*>", "*")
}

/// Whether a template token is a typed placeholder "<:...>".
pub open spec fn is_typed_placeholder(tok: Seq<char>) -> bool {
    has_prefix(tok, "<:"@) && has_suffix(tok, ">"@)
}

/// The variables of the first `n` template tokens: one per typed placeholder, named
/// "var_0", "var_1", ... in order, typed by the lower-cased placeholder name.
pub open spec fn variables_spec(toks: Seq<Seq<char>>, n: nat) -> Seq<VariableView>
    decreases n,
{
    if n == 0 || n > toks.len() {
        Seq::empty()
    } else {
        let prev = variables_spec(toks, (n - 1) as nat);
        let tok = toks[n - 1];
        if is_typed_placeholder(tok) {
            prev.push(
                (
                    (n - 1) as usize,
                    "var_"@ + decimal(prev.len()),
                    lower_text(trim_end_all(trim_start_all(tok, "<:"@), '>')),
                ),
            )
        } else {
            prev
        }
    }
}

/// The abstract values of a sequence of variables.
pub open spec fn variables_view(v: Seq<Variable>) -> Seq<VariableView> {
    v.map_values(|x: Variable| x@)
}

/// The variables of a template: one per typed placeholder token.
pub fn extract_variables(template_tokens: &Vec<String>) -> (r: Vec<Variable>)
    ensures
        variables_view(r@) == variables_spec(views_of(template_tokens@), template_tokens@.len()),
{
    let mut vars: Vec<Variable> = Vec::new();
    let n = template_tokens.len();
    proof {
        reveal_strlit("<:");
    }
    for i in 0..n
        invariant
            n == template_tokens@.len(),
            variables_view(vars@) == variables_spec(views_of(template_tokens@), i as nat),
    {
        let tok = template_tokens[i].as_str();
        assert(views_of(template_tokens@)[i as int] == tok@);
        if starts_with(tok, "<:") && ends_with(tok, ">") {
            proof {
                reveal_strlit("<:");
            }
            let trimmed = trim_start_end(tok, "<:", '>');
            let var_type = to_lowercase(trimmed.as_str());
            let name = concat2("var_", usize_to_decimal(vars.len()).as_str());
            let ghost before = variables_view(vars@);
            let v = Variable::new(i, name, var_type);
            vars.push(v);
            assert(variables_view(vars@) =~= before.push(v@));
        }
    }
    vars
}


/// The type whose name is `n`; `String` for any other name.
spec fn type_of_name(n: Seq<char>) -> SdrType {
    if n == "IP"@ {
        SdrType::Ip
    } else if n == "NUM"@ {
        SdrType::Num
    } else if n == "UUID"@ {
        SdrType::Uuid
    } else if n == "TIMESTAMP"@ {
        SdrType::Timestamp
    } else if n == "PATH"@ {
        SdrType::Path
    } else if n == "URL"@ {
        SdrType::Url
    } else if n == "EMAIL"@ {
        SdrType::Email
    } else if n == "HEX"@ {
        SdrType::Hex
    } else {
        SdrType::String
    }
}

/// A type's name is at least two upper-case letters, and names the type alone.
proof fn lemma_type_name(t: SdrType)
    ensures
        type_name_spec(t).len() >= 2,
        forall|i: int| 0 <= i < type_name_spec(t).len() ==> 'A' <= #[trigger] type_name_spec(t)[i] <= 'Z',
        type_of_name(type_name_spec(t)) == t,
{
    reveal_strlit("IP");
    reveal_strlit("NUM");
    reveal_strlit("UUID");
    reveal_strlit("TIMESTAMP");
    reveal_strlit("PATH");
    reveal_strlit("URL");
    reveal_strlit("EMAIL");
    reveal_strlit("HEX");
    reveal_strlit("STRING");
    match t {
        SdrType::Ip => {

        },
        SdrType::Num => {
            assert("NUM"@.len() != "IP"@.len());
        },
        SdrType::Uuid => {
            assert("UUID"@.len() != "IP"@.len());
            assert("UUID"@.len() != "NUM"@.len());
        },
        SdrType::Timestamp => {
            assert("TIMESTAMP"@.len() != "IP"@.len());
            assert("TIMESTAMP"@.len() != "NUM"@.len());
            assert("TIMESTAMP"@.len() != "UUID"@.len());
        },
        SdrType::Path => {
            assert("PATH"@.len() != "IP"@.len());
            assert("PATH"@.len() != "NUM"@.len());
            assert("PATH"@[0] != "UUID"@[0]);
            assert("PATH"@.len() != "TIMESTAMP"@.len());
        },
        SdrType::Url => {
            assert("URL"@.len() != "IP"@.len());
            assert("URL"@[0] != "NUM"@[0]);
            assert("URL"@.len() != "UUID"@.len());
            assert("URL"@.len() != "TIMESTAMP"@.len());
            assert("URL"@.len() != "PATH"@.len());
        },
        SdrType::Email => {
            assert("EMAIL"@.len() != "IP"@.len());
            assert("EMAIL"@.len() != "NUM"@.len());
            assert("EMAIL"@.len() != "UUID"@.len());
            assert("EMAIL"@.len() != "TIMESTAMP"@.len());
            assert("EMAIL"@.len() != "PATH"@.len());
            assert("EMAIL"@.len() != "URL"@.len());
        },
        SdrType::Hex => {
            assert("HEX"@.len() != "IP"@.len());
            assert("HEX"@[0] != "NUM"@[0]);
            assert("HEX"@.len() != "UUID"@.len());
            assert("HEX"@.len() != "TIMESTAMP"@.len());
            assert("HEX"@.len() != "PATH"@.len());
            assert("HEX"@[0] != "URL"@[0]);
            assert("HEX"@.len() != "EMAIL"@.len());
        },
        SdrType::String => {
            assert("STRING"@.len() != "IP"@.len());
            assert("STRING"@.len() != "NUM"@.len());
            assert("STRING"@.len() != "UUID"@.len());
            assert("STRING"@.len() != "TIMESTAMP"@.len());
            assert("STRING"@.len() != "PATH"@.len());
            assert("STRING"@.len() != "URL"@.len());
            assert("STRING"@.len() != "EMAIL"@.len());
            assert("STRING"@.len() != "HEX"@.len());
        },
    }
}

/// A typed placeholder is "<:" and a name of upper-case letters and ">": its only '<' is
/// the first character and its only '>' the last.
proof fn lemma_placeholder_shape(t: SdrType)
    ensures
        placeholder_spec(t).len() == type_name_spec(t).len() + 3,
        placeholder_spec(t)[0] == '<',
        placeholder_spec(t)[1] == ':',
        placeholder_spec(t)[placeholder_spec(t).len() - 1] == '>',
        forall|i: int| 1 <= i < placeholder_spec(t).len() ==> #[trigger] placeholder_spec(t)[i] != '<',
        forall|i: int| 0 <= i < placeholder_spec(t).len() - 1 ==> #[trigger] placeholder_spec(t)[i] != '>',
        placeholder_spec(t).subrange(2, placeholder_spec(t).len() - 1) == type_name_spec(t),
{
    reveal_strlit("<:");
    reveal_strlit(">");
    lemma_type_name(t);
    let p = placeholder_spec(t);
    let n = type_name_spec(t);
    assert forall|i: int| 2 <= i < p.len() - 1 implies p[i] == n[i - 2] by {}
    assert(p.subrange(2, p.len() - 1) =~= n);
}

/// A typed placeholder holds no other type's placeholder, and no "<*>".
proof fn lemma_placeholder_holds_no_other(t: SdrType, p: Seq<char>)
    requires
        p == "<*>"@ || exists|u: SdrType| u != t && p == placeholder_spec(u),
    ensures
        forall|i: int| 0 <= i < placeholder_spec(t).len() ==> !has_prefix(
            #[trigger] placeholder_spec(t).skip(i),
            p,
        ),
{
    reveal_strlit("<*>");
    let s = placeholder_spec(t);
    lemma_placeholder_shape(t);
    if p != "<*>"@ {
        let u = choose|u: SdrType| u != t && p == placeholder_spec(u);
        lemma_placeholder_shape(u);
    }
    assert(p[0] == '<');
    assert forall|i: int| 0 <= i < s.len() implies !has_prefix(#[trigger] s.skip(i), p) by {
        if has_prefix(s.skip(i), p) {
            assert(s.skip(i).subrange(0, p.len() as int)[0] == p[0]);
            assert(s[i] == '<');
            assert(i == 0);
            assert(s.skip(0) =~= s);
            if p == "<*>"@ {
                assert(s.subrange(0, 3)[1] == s[1]);
            } else {
                let u = choose|u: SdrType| u != t && p == placeholder_spec(u);
                lemma_placeholder_shape(u);
                let k = p.len() - 1;
                assert(s.subrange(0, p.len() as int)[k] == s[k]);
                assert(s[k] == '>');
                assert(k == s.len() - 1);
                assert(s.subrange(0, p.len() as int) =~= s);
                assert(type_name_spec(u) == type_name_spec(t));
                lemma_type_name(u);
                lemma_type_name(t);
            }
        }
    }
}

/// One replacement of the description on a placeholder or on "*": the placeholder of
/// the replaced pattern's own type becomes "*", anything else is kept.
proof fn lemma_description_step(cur: Seq<char>, t: SdrType, p: Seq<char>, u: Option<SdrType>)
    requires
        cur == placeholder_spec(t) || cur == "*"@,
        match u {
            Some(u) => p == placeholder_spec(u),
            None => p == "<*>"@,
        },
    ensures
        replace_all(cur, p, "*"@) == if cur == placeholder_spec(t) && u == Some(t) {
            "*"@
        } else {
            cur
        },
{
    reveal_strlit("*");
    reveal_strlit("<*>");
    match u {
        Some(u) => lemma_placeholder_shape(u),
        None => {},
    }
    assert(p.len() >= 2);
    if cur == "*"@ {
        assert forall|i: int| 0 <= i < cur.len() implies !has_prefix(#[trigger] cur.skip(i), p) by {}
        lemma_replace_all_absent(cur, p, "*"@);
    } else if u == Some(t) {
        lemma_replace_all_whole(cur, "*"@);
    } else {
        lemma_placeholder_shape(t);
        if u is Some {
            assert(p == placeholder_spec(u.unwrap()) && u.unwrap() != t);
        }
        lemma_placeholder_holds_no_other(t, p);
        lemma_replace_all_absent(cur, p, "*"@);
    }
}

/// Every typed placeholder is described as "*": the description of a type's placeholder
/// is "*" for every type.
pub proof fn law_placeholders_described_as_star(t: SdrType)
    ensures
        description_spec(placeholder_spec(t)) == "*"@,
{
    reveal_strlit("<:IP>");
    reveal_strlit("<:NUM>");
    reveal_strlit("<:UUID>");
    reveal_strlit("<:TIMESTAMP>");
    reveal_strlit("<:PATH>");
    reveal_strlit("<:URL>");
    reveal_strlit("<:EMAIL>");
    reveal_strlit("<:HEX>");
    reveal_strlit("<:STRING>");
    reveal_strlit("<:");
    reveal_strlit(">");
    reveal_strlit("IP");
    reveal_strlit("NUM");
    reveal_strlit("UUID");
    reveal_strlit("TIMESTAMP");
    reveal_strlit("PATH");
    reveal_strlit("URL");
    reveal_strlit("EMAIL");
    reveal_strlit("HEX");
    reveal_strlit("STRING");
    assert(placeholder_spec(SdrType::Ip) =~= "<:IP>"@);
    assert(placeholder_spec(SdrType::Num) =~= "<:NUM>"@);
    assert(placeholder_spec(SdrType::Uuid) =~= "<:UUID>"@);
    assert(placeholder_spec(SdrType::Timestamp) =~= "<:TIMESTAMP>"@);
    assert(placeholder_spec(SdrType::Path) =~= "<:PATH>"@);
    assert(placeholder_spec(SdrType::Url) =~= "<:URL>"@);
    assert(placeholder_spec(SdrType::Email) =~= "<:EMAIL>"@);
    assert(placeholder_spec(SdrType::Hex) =~= "<:HEX>"@);
    assert(placeholder_spec(SdrType::String) =~= "<:STRING>"@);
    let s0 = placeholder_spec(t);
    lemma_description_step(s0, t, "<:IP>"@, Some(SdrType::Ip));
    let s1 = replace_all(s0, "<:IP>"@, "*"@);
    lemma_description_step(s1, t, "<:NUM>"@, Some(SdrType::Num));
    let s2 = replace_all(s1, "<:NUM>"@, "*"@);
    lemma_description_step(s2, t, "<:UUID>"@, Some(SdrType::Uuid));
    let s3 = replace_all(s2, "<:UUID>"@, "*"@);
    lemma_description_step(s3, t, "<:TIMESTAMP>"@, Some(SdrType::Timestamp));
    let s4 = replace_all(s3, "<:TIMESTAMP>"@, "*"@);
    lemma_description_step(s4, t, "<:PATH>"@, Some(SdrType::Path));
    let s5 = replace_all(s4, "<:PATH>"@, "*"@);
    lemma_description_step(s5, t, "<:URL>"@, Some(SdrType::Url));
    let s6 = replace_all(s5, "<:URL>"@, "*"@);
    lemma_description_step(s6, t, "<:EMAIL>"@, Some(SdrType::Email));
    let s7 = replace_all(s6, "<:EMAIL>"@, "*"@);
    lemma_description_step(s7, t, "<:HEX>"@, Some(SdrType::Hex));
    let s8 = replace_all(s7, "<:HEX>"@, "*"@);
    lemma_description_step(s8, t, "<:STRING>"@, Some(SdrType::String));
    let s9 = replace_all(s8, "<:STRING>"@, "*"@);
    lemma_description_step(s9, t, "<*>"@, None);
}

} // verus!
