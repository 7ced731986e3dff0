//! FFmpeg command templates with placeholders.
use vstd::prelude::*;
use crate::text::{
    contains, lemma_replace_absent, owned, replace_all, replace_str, split_whitespace, split_ws,
    strs,
};

verus! {

/// `t` with each replacement `(placeholder, value)` applied in order, every
/// occurrence of the placeholder replaced by the value.
pub open spec fn apply_replacements(t: Seq<char>, reps: Seq<(Seq<char>, Seq<char>)>) -> Seq<char>
    decreases reps.len(),
{
    if reps.len() == 0 {
        t
    } else {
        replace_all(apply_replacements(t, reps.drop_last()), reps.last().0, reps.last().1)
    }
}

/// The views of a list of string-slice pairs.
pub open spec fn pair_views(reps: Seq<(&str, &str)>) -> Seq<(Seq<char>, Seq<char>)> {
    reps.map_values(|p: (&str, &str)| (p.0@, p.1@))
}

/// The command text of a template with the hardware acceleration code, the input
/// and the output filled in.
pub open spec fn filled_template(t: Seq<char>, hw: Seq<char>, input: Seq<char>, output: Seq<char>) -> Seq<
    char,
> {
    replace_all(
        replace_all(replace_all(t, "{HWACCEL_CODE}"@, hw), "{INPUT}"@, input),
        "{OUTPUT}"@,
        output,
    )
}

/// FFmpeg template parser for simple placeholder replacement
pub struct TemplateParser {
    template: String,
}

impl TemplateParser {
    /// The template text.
    pub closed spec fn template_view(&self) -> Seq<char> {
        self.template@
    }

    /// A parser for the given template.
    pub fn new(template: String) -> (res: Self)
        ensures
            res.template_view() == template@,
    {
        Self { template }
    }

    /// Parse template and replace placeholders: each `(placeholder, value)` pair is
    /// applied in order to the result of the previous ones.
    /// Supported placeholders include `{HWACCEL_CODE}`, `{INPUT}`, `{OUTPUT}`,
    /// `{PRESET}` and `{CRF}`.
    pub fn parse(&self, replacements: &[(&str, &str)]) -> (res: String)
        ensures
            res@ == apply_replacements(self.template_view(), pair_views(replacements@)),
    {
        let mut result = owned(self.template.as_str());
        let mut i: usize = 0;
        while i < replacements.len()
            invariant
                i <= replacements.len(),
                result@ == apply_replacements(
                    self.template_view(),
                    pair_views(replacements@.take(i as int)),
                ),
            decreases replacements.len() - i,
        {
            let (placeholder, value) = replacements[i];
            result = replace_str(result.as_str(), placeholder, value);
            i = i + 1;
            assert(pair_views(replacements@.take(i as int)).drop_last() =~= pair_views(
                replacements@.take(i - 1),
            ));
        }
        assert(replacements@.take(i as int) =~= replacements@);
        result
    }

    /// Build complete FFmpeg command arguments from template: the placeholders
    /// `{HWACCEL_CODE}`, `{INPUT}` and `{OUTPUT}` are filled in, in that order, and the
    /// result is split at white space.
    pub fn build_args(&self, hwaccel_code: &str, input: &str, output: &str) -> (res: Vec<String>)
        ensures
            strs(res@) == split_ws(
                filled_template(self.template_view(), hwaccel_code@, input@, output@),
            ),
    {
        let a = replace_str(self.template.as_str(), "{HWACCEL_CODE}", hwaccel_code);
        let b = replace_str(a.as_str(), "{INPUT}", input);
        let command = replace_str(b.as_str(), "{OUTPUT}", output);
        split_whitespace(command.as_str())
    }
}

/// A template that holds none of the placeholders is split as it stands: filling it
/// in changes nothing.
pub proof fn template_without_placeholders(
    t: Seq<char>,
    hw: Seq<char>,
    input: Seq<char>,
    output: Seq<char>,
)
    requires
        !contains(t, "{HWACCEL_CODE}"@),
        !contains(t, "{INPUT}"@),
        !contains(t, "{OUTPUT}"@),
    ensures
        filled_template(t, hw, input, output) == t,
{
    reveal_strlit("{HWACCEL_CODE}");
    reveal_strlit("{INPUT}");
    reveal_strlit("{OUTPUT}");
    lemma_replace_absent(t, "{HWACCEL_CODE}"@, hw);
    lemma_replace_absent(t, "{INPUT}"@, input);
    lemma_replace_absent(t, "{OUTPUT}"@, output);
}

} // verus!
