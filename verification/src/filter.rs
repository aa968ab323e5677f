//! Choosing the interfaces to monitor by the start of their names.

use vstd::prelude::*;
use vstd::string::*;

verus! {

/// The interfaces to monitor, given as the tokens their names may start with.
///
/// A name that equals a token starts with it, so a token also selects the
/// interface of exactly that name. The filter's view is the sequence of its
/// tokens, each as a sequence of characters.
#[derive(Clone, Debug, PartialEq, Eq)]
pub struct InterfaceFilter {
    pub tokens: Vec<String>,
}

impl View for InterfaceFilter {
    type V = Seq<Seq<char>>;

    open spec fn view(&self) -> Seq<Seq<char>> {
        self.tokens.deep_view()
    }
}

/// Some token of `tokens` stands at the start of `name`.
pub open spec fn selects(tokens: Seq<Seq<char>>, name: Seq<char>) -> bool {
    exists|i: int| 0 <= i < tokens.len() && (#[trigger] tokens[i]).is_prefix_of(name)
}

/// Whether `name` starts with `token`.
///
/// The token has to stand at the very start: `eth` starts `eth0` and does not
/// start `weth0`.
pub fn starts_with(name: &str, token: &str) -> (yes: bool)
    ensures
        yes == token@.is_prefix_of(name@),
{
    let token_len = token.unicode_len();
    if token_len > name.unicode_len() {
        return false;
    }
    let mut i: usize = 0;
    while i < token_len
        invariant
            i <= token_len,
            token_len == token@.len(),
            token_len <= name@.len(),
            forall|j: int| 0 <= j < i ==> token@[j] == name@[j],
        decreases token_len - i,
    {
        if token.get_char(i) != name.get_char(i) {
            return false;
        }
        i += 1;
    }
    assert(token@ =~= name@.subrange(0, token@.len() as int));
    true
}

impl InterfaceFilter {
    /// The filter made of the given tokens.
    pub fn new(tokens: Vec<String>) -> (filter: InterfaceFilter)
        ensures
            filter.tokens == tokens,
            filter@ == tokens.deep_view(),
    {
        InterfaceFilter { tokens }
    }

    /// Whether the filter selects the interface called `name`.
    pub fn matches(&self, name: &str) -> (yes: bool)
        ensures
            yes == selects(self@, name@),
    {
        let mut i: usize = 0;
        while i < self.tokens.len()
            invariant
                i <= self.tokens.len(),
                self@.len() == self.tokens.len(),
                forall|j: int| 0 <= j < i ==> !(#[trigger] self@[j]).is_prefix_of(name@),
            decreases self.tokens.len() - i,
        {
            assert(self@[i as int] == self.tokens@[i as int]@);
            if starts_with(name, self.tokens[i].as_str()) {
                return true;
            }
            i += 1;
        }
        false
    }
}

/// A filter without tokens selects no interface.
pub proof fn lemma_empty_filter_selects_nothing(name: Seq<char>)
    ensures
        !selects(Seq::empty(), name),
{
}

/// A token selects the interface of exactly its own name, and every
/// interface whose name goes on after it.
pub proof fn lemma_token_selects_its_extensions(tokens: Seq<Seq<char>>, i: int, rest: Seq<char>)
    requires
        0 <= i < tokens.len(),
    ensures
        selects(tokens, tokens[i]),
        selects(tokens, tokens[i] + rest),
{
    let token = tokens[i];
    assert(token =~= token.subrange(0, token.len() as int));
    assert(token =~= (token + rest).subrange(0, token.len() as int));
}

/// A selected name carries one of the tokens at its very start: a token
/// that occurs only further inside the name does not select it.
pub proof fn lemma_selected_name_begins_with_token(tokens: Seq<Seq<char>>, name: Seq<char>)
    requires
        selects(tokens, name),
    ensures
        exists|i: int|
            0 <= i < tokens.len() && (#[trigger] tokens[i]).len() <= name.len() && forall|k: int|
                0 <= k < tokens[i].len() ==> name[k] == tokens[i][k],
{
    let i = choose|i: int| 0 <= i < tokens.len() && (#[trigger] tokens[i]).is_prefix_of(name);
    let token = tokens[i];
    assert forall|k: int| 0 <= k < token.len() implies name[k] == token[k] by {
        assert(name.subrange(0, token.len() as int)[k] == name[k]);
    }
}

} // verus!
