use vstd::prelude::*;

verus! {

/// Whether an environment setting counts as switched on: an absent variable
/// reads as `"0"`, and every value other than `"0"` is on.
pub open spec fn is_on(value: Option<Seq<char>>) -> bool {
    match value {
        None => false,
        Some(s) => s != seq!['0'],
    }
}

/// The view of an optional environment value.
pub open spec fn opt_view(value: Option<&str>) -> Option<Seq<char>> {
    match value {
        None => None,
        Some(s) => Some(s@),
    }
}

/// The default styling decision: `CLICOLOR` on and output to a terminal, or
/// `CLICOLOR_FORCE` on.
pub open spec fn default_styling(
    clicolor: Option<Seq<char>>,
    clicolor_force: Option<Seq<char>>,
    is_terminal: bool,
) -> bool {
    (is_on(clicolor) && is_terminal) || is_on(clicolor_force)
}

/// Returns whether an environment value is switched on.
pub fn setting_is_on(value: Option<&str>) -> (r: bool)
    ensures
        r == is_on(opt_view(value)),
{
    match value {
        None => false,
        Some(s) => {
            let n = s.unicode_len();
            if n != 1 {
                proof {
                    assert(s@.len() != seq!['0'].len());
                }
                true
            } else {
                let c = s.get_char(0);
                if c == '0' {
                    assert(s@ =~= seq!['0']);
                } else {
                    assert(s@[0] != seq!['0'][0]);
                }
                c != '0'
            }
        },
    }
}

/// Decides whether styling is on by default, from the values of `CLICOLOR`
/// and `CLICOLOR_FORCE` (`None` where unset) and from whether the output is
/// an interactive terminal.
pub fn supports_styling(clicolor: Option<&str>, clicolor_force: Option<&str>, is_terminal: bool) -> (r:
    bool)
    ensures
        r == default_styling(opt_view(clicolor), opt_view(clicolor_force), is_terminal),
{
    (setting_is_on(clicolor) && is_terminal) || setting_is_on(clicolor_force)
}

/// With neither variable switched on (unset or `"0"`), styling is off by
/// default whatever the terminal; with `CLICOLOR` on and `CLICOLOR_FORCE`
/// off, the default is exactly whether the output is a terminal; with
/// `CLICOLOR_FORCE` set to `"1"`, styling is on whatever the terminal.
pub proof fn lemma_policy_default(
    clicolor: Option<Seq<char>>,
    clicolor_force: Option<Seq<char>>,
    is_terminal: bool,
)
    ensures
        (clicolor is None || clicolor == Some(seq!['0'])) && (clicolor_force is None
            || clicolor_force == Some(seq!['0'])) ==> !default_styling(
            clicolor,
            clicolor_force,
            is_terminal,
        ),
        is_on(clicolor) && !is_on(clicolor_force) ==> default_styling(
            clicolor,
            clicolor_force,
            is_terminal,
        ) == is_terminal,
        clicolor_force == Some(seq!['1']) ==> default_styling(clicolor, clicolor_force, is_terminal),
{
    assert(seq!['1'][0] != seq!['0'][0]);
}

} // verus!
