//! Field classifier: the kind of form control for a column, chosen by an
//! ordered list of name rules where the first rule that matches wins.
use vstd::prelude::*;
use crate::navigation::InputType;
use crate::text::{contains, has_infix, same_text};

verus! {

/// A name rule: a pattern, whether the name must equal it (else contain it),
/// and the kind of control it selects.
pub struct InputRule {
    pub pattern: String,
    pub exact: bool,
    pub kind: InputType,
}

/// An ordered list of name rules.
pub struct FieldClassifier {
    pub rules: Vec<InputRule>,
}

/// A rule as plain values.
pub type RuleView = (Seq<char>, bool, InputType);

/// Whether a rule matches `name`.
pub open spec fn rule_matches(rule: RuleView, name: Seq<char>) -> bool {
    if rule.1 {
        name == rule.0
    } else {
        has_infix(name, rule.0)
    }
}

/// The kind selected by the first rule that matches `name`; `Input` when none does.
pub open spec fn first_kind(rules: Seq<RuleView>, name: Seq<char>) -> InputType
    decreases rules.len(),
{
    if rules.len() == 0 {
        InputType::Input
    } else if rule_matches(rules[0], name) {
        rules[0].2
    } else {
        first_kind(rules.drop_first(), name)
    }
}

/// The standard rules: `uuid` hides; `title`, `name` and exactly `id` give a
/// one-line input; `body`, `text`, `preview` and `content` a text area;
/// `number`, `quantity` and `type` a select box.
pub open spec fn standard_input_rules() -> Seq<RuleView> {
    seq![
        ("uuid"@, false, InputType::Hidden),
        ("title"@, false, InputType::Input),
        ("name"@, false, InputType::Input),
        ("id"@, true, InputType::Input),
        ("body"@, false, InputType::TextArea),
        ("text"@, false, InputType::TextArea),
        ("preview"@, false, InputType::TextArea),
        ("content"@, false, InputType::TextArea),
        ("number"@, false, InputType::Select),
        ("quantity"@, false, InputType::Select),
        ("type"@, false, InputType::Select),
    ]
}

/// What `str::to_lowercase` returns for a text.
pub uninterp spec fn lower_of(s: Seq<char>) -> Seq<char>;

/// Relies on `str::to_lowercase`: the lower-case form of the text, a
/// function of its characters alone.
#[verifier::external_body]
fn lowercase(s: &str) -> (r: String)
    ensures
        r@ == lower_of(s@),
{
    s.to_lowercase()
}

impl InputRule {
    pub open spec fn view(&self) -> RuleView {
        (self.pattern@, self.exact, self.kind)
    }

    pub fn new(pattern: &str, exact: bool, kind: InputType) -> (r: InputRule)
        ensures
            r.view() == (pattern@, exact, kind),
    {
        InputRule { pattern: pattern.to_owned(), exact, kind }
    }

    /// Whether the rule matches `name`.
    pub fn matches(&self, name: &str) -> (r: bool)
        ensures
            r == rule_matches(self.view(), name@),
    {
        if self.exact {
            same_text(name, self.pattern.as_str())
        } else {
            contains(name, self.pattern.as_str())
        }
    }
}

impl FieldClassifier {
    /// The rules as plain values.
    pub open spec fn view(&self) -> Seq<RuleView> {
        self.rules@.map_values(|r: InputRule| r.view())
    }

    /// The standard rules.
    pub fn standard() -> (r: FieldClassifier)
        ensures
            r.view() == standard_input_rules(),
    {
        let mut v: Vec<InputRule> = Vec::new();
        v.push(InputRule::new("uuid", false, InputType::Hidden));
        v.push(InputRule::new("title", false, InputType::Input));
        v.push(InputRule::new("name", false, InputType::Input));
        v.push(InputRule::new("id", true, InputType::Input));
        v.push(InputRule::new("body", false, InputType::TextArea));
        v.push(InputRule::new("text", false, InputType::TextArea));
        v.push(InputRule::new("preview", false, InputType::TextArea));
        v.push(InputRule::new("content", false, InputType::TextArea));
        v.push(InputRule::new("number", false, InputType::Select));
        v.push(InputRule::new("quantity", false, InputType::Select));
        v.push(InputRule::new("type", false, InputType::Select));
        let r = FieldClassifier { rules: v };
        assert(r.view() =~= standard_input_rules());
        r
    }

    /// The kind chosen for a name that is already in lower case: that of the
    /// first rule that matches it, `Input` when none does.
    pub fn classify_lowered(&self, name: &str) -> (r: InputType)
        ensures
            r == first_kind(self.view(), name@),
    {
        let n = self.rules.len();
        let mut i: usize = 0;
        assert(self.view().subrange(0, n as int) =~= self.view());
        while i < n
            invariant
                n == self.rules@.len(),
                i <= n,
                first_kind(self.view(), name@) == first_kind(
                    self.view().subrange(i as int, n as int),
                    name@,
                ),
            decreases n - i,
        {
            assert(self.view().subrange(i as int, n as int).drop_first() =~= self.view().subrange(
                i + 1,
                n as int,
            ));
            if self.rules[i].matches(name) {
                return self.rules[i].kind;
            }
            i = i + 1;
        }
        InputType::Input
    }

    /// The kind chosen for a column name, matched without regard to case.
    pub fn classify(&self, name: &str) -> (r: InputType)
        ensures
            r == first_kind(self.view(), lower_of(name@)),
    {
        let lowered = lowercase(name);
        self.classify_lowered(lowered.as_str())
    }
}

/// The kind of form control for a column name under the standard rules.
pub fn simple_model(name: String) -> (r: InputType)
    ensures
        r == first_kind(standard_input_rules(), lower_of(name@)),
{
    FieldClassifier::standard().classify(name.as_str())
}

/// The first rule that matches decides: when rule `i` matches `name` and no
/// rule before it does, the kind is that of rule `i`.
pub proof fn lemma_first_match_wins(rules: Seq<RuleView>, name: Seq<char>, i: int)
    requires
        0 <= i < rules.len(),
        rule_matches(rules[i], name),
        forall|j: int| 0 <= j < i ==> !rule_matches(#[trigger] rules[j], name),
    ensures
        first_kind(rules, name) == rules[i].2,
    decreases i,
{
    if i > 0 {
        let rest = rules.drop_first();
        assert forall|j: int| 0 <= j < i - 1 implies !rule_matches(#[trigger] rest[j], name) by {
            assert(rest[j] == rules[j + 1]);
        }
        lemma_first_match_wins(rest, name, i - 1);
    }
}

/// A name that no rule matches gets a one-line input.
pub proof fn lemma_no_match_gives_input(rules: Seq<RuleView>, name: Seq<char>)
    requires
        forall|j: int| 0 <= j < rules.len() ==> !rule_matches(#[trigger] rules[j], name),
    ensures
        first_kind(rules, name) == InputType::Input,
    decreases rules.len(),
{
    if rules.len() > 0 {
        let rest = rules.drop_first();
        assert forall|j: int| 0 <= j < rest.len() implies !rule_matches(#[trigger] rest[j], name) by {
            assert(rest[j] == rules[j + 1]);
        }
        lemma_no_match_gives_input(rest, name);
    }
}

} // verus!
