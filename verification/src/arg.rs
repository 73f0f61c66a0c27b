//! Owned argument tokens and raw argument collections.
//!
//! Tokens are classified one at a time: the `--` option separator, flag-like
//! tokens (`-v`, `--verbose`, `--key=value`), and everything else, which is
//! positional (including a lone `-`).
use vstd::prelude::*;

use crate::text::chars_of;

verus! {

/// The token is exactly `--`.
pub open spec fn spec_is_option_separator(token: Seq<char>) -> bool {
    token == seq!['-', '-']
}

/// The token starts with `-`, is not `-` alone, and is not the `--` separator.
pub open spec fn spec_is_flag_like(token: Seq<char>) -> bool {
    &&& token.len() > 0
    &&& token[0] == '-'
    &&& token != seq!['-']
    &&& !spec_is_option_separator(token)
}

/// The token is neither the separator nor flag-like.
pub open spec fn spec_is_positional(token: Seq<char>) -> bool {
    !spec_is_option_separator(token) && !spec_is_flag_like(token)
}

/// Every token is exactly one of: the option separator, flag-like, or positional.
pub proof fn lemma_token_classes_partition(token: Seq<char>)
    ensures
        spec_is_option_separator(token) || spec_is_flag_like(token) || spec_is_positional(token),
        !(spec_is_option_separator(token) && spec_is_flag_like(token)),
        !(spec_is_option_separator(token) && spec_is_positional(token)),
        !(spec_is_flag_like(token) && spec_is_positional(token)),
{
}

/// A token is flag-like exactly when it starts with `-` and is neither `-` nor
/// `--`; `--key=value` and `-x` tokens are flag-like whatever follows the dash.
pub proof fn lemma_flag_like_rule(token: Seq<char>)
    ensures
        spec_is_flag_like(token) <==> (token.len() >= 2 && token[0] == '-' && !(token.len() == 2
            && token[1] == '-')),
{
    if token.len() == 1 {
        assert(token.len() == 1 && token[0] == '-' ==> token =~= seq!['-']);
    }
    if token.len() == 2 && token[0] == '-' && token[1] == '-' {
        assert(token =~= seq!['-', '-']);
    }
}

/// A token is positional exactly when it is empty, does not start with `-`, or is `-` alone.
pub proof fn lemma_positional_rule(token: Seq<char>)
    ensures
        spec_is_positional(token) <==> (token.len() == 0 || token[0] != '-' || token.len() == 1),
{
    lemma_flag_like_rule(token);
    if token.len() == 1 && token[0] == '-' {
        assert(token =~= seq!['-']);
    }
}

/// A token is the option separator exactly when it is two dashes.
pub proof fn lemma_option_separator_rule(token: Seq<char>)
    ensures
        spec_is_option_separator(token) <==> (token.len() == 2 && token[0] == '-' && token[1]
            == '-'),
{
    if token.len() == 2 && token[0] == '-' && token[1] == '-' {
        assert(token =~= seq!['-', '-']);
    }
}

/// An owned command-line argument token.
#[derive(Debug, PartialEq, Eq, Hash)]
pub struct Arg {
    value: String,
}

impl View for Arg {
    type V = Seq<char>;

    closed spec fn view(&self) -> Seq<char> {
        self.value@
    }
}

impl Arg {
    /// Creates an owned argument token.
    pub fn new(value: &str) -> (arg: Self)
        ensures
            arg@ == value@,
    {
        Arg { value: value.to_owned() }
    }

    /// Returns the borrowed token string.
    pub fn as_str(&self) -> (s: &str)
        ensures
            s@ == self@,
    {
        self.value.as_str()
    }

    /// Returns the owned token string.
    pub fn into_string(self) -> (s: String)
        ensures
            s@ == self@,
    {
        self.value
    }

    /// Returns whether this token is the `--` option separator.
    pub fn is_option_separator(&self) -> (b: bool)
        ensures
            b == spec_is_option_separator(self@),
    {
        is_option_separator(self.value.as_str())
    }

    /// Returns whether this token looks like a flag or option token.
    pub fn is_flag_like(&self) -> (b: bool)
        ensures
            b == spec_is_flag_like(self@),
    {
        is_flag_like(self.value.as_str())
    }

    /// Returns whether this token looks positional.
    pub fn is_positional(&self) -> (b: bool)
        ensures
            b == spec_is_positional(self@),
    {
        is_positional(self.value.as_str())
    }
}

impl Clone for Arg {
    fn clone(&self) -> (c: Self)
        ensures
            c@ == self@,
    {
        Arg { value: self.value.clone() }
    }
}

impl AsRef<str> for Arg {
    fn as_ref(&self) -> (s: &str)
        ensures
            s@ == self@,
    {
        self.value.as_str()
    }
}

impl From<String> for Arg {
    fn from(value: String) -> (arg: Self)
        ensures
            arg@ == value@,
    {
        Arg { value }
    }
}

/// What `from` returns is stated by its own `ensures`, over the view; no spec
/// value stands for it, since a `String` inside is known only by its view.
impl vstd::std_specs::convert::FromSpecImpl<String> for Arg {
    open spec fn obeys_from_spec() -> bool {
        false
    }

    open spec fn from_spec(v: String) -> Arg {
        vstd::pervasive::arbitrary()
    }
}

impl<'a> From<&'a str> for Arg {
    fn from(value: &'a str) -> (arg: Self)
        ensures
            arg@ == value@,
    {
        Arg::new(value)
    }
}

/// What `from` returns is stated by its own `ensures`, over the view; no spec
/// value stands for it, since a `String` inside is known only by its view.
impl<'a> vstd::std_specs::convert::FromSpecImpl<&'a str> for Arg {
    open spec fn obeys_from_spec() -> bool {
        false
    }

    open spec fn from_spec(v: &'a str) -> Arg {
        vstd::pervasive::arbitrary()
    }
}

/// A raw owned argument collection, in the order the tokens were given.
#[derive(Debug, Default, PartialEq, Eq)]
pub struct RawArgs {
    args: Vec<Arg>,
}

impl View for RawArgs {
    type V = Seq<Seq<char>>;

    closed spec fn view(&self) -> Seq<Seq<char>> {
        self.args@.map_values(|a: Arg| a@)
    }
}

impl RawArgs {
    /// Creates a raw argument collection from owned tokens.
    pub fn new(args: Vec<Arg>) -> (r: Self)
        ensures
            r@ == args@.map_values(|a: Arg| a@),
    {
        RawArgs { args }
    }

    /// Creates a raw argument collection from owned token strings, in order.
    pub fn from_strings(strings: Vec<String>) -> (r: Self)
        ensures
            r@ == strings@.map_values(|s: String| s@),
    {
        let ghost given = strings@;
        let mut args: Vec<Arg> = Vec::new();
        for s in it: strings.into_iter()
            invariant
                it.seq() == given,
                args@.len() == it.index(),
                forall|k: int| 0 <= k < it.index() ==> #[trigger] args@[k]@ == given[k]@,
        {
            args.push(Arg::from(s));
        }
        let r = RawArgs { args };
        assert(r@ =~= given.map_values(|s: String| s@));
        r
    }

    /// Creates an empty raw argument collection.
    pub fn empty() -> (r: Self)
        ensures
            r@ == Seq::<Seq<char>>::empty(),
    {
        let r = RawArgs { args: Vec::new() };
        assert(r@ =~= Seq::<Seq<char>>::empty());
        r
    }

    /// Adds an argument token to the end of the collection.
    pub fn push(&mut self, arg: Arg)
        ensures
            final(self)@ == old(self)@.push(arg@),
    {
        self.args.push(arg);
        assert(self@ =~= old(self)@.push(arg@));
    }

    /// Returns the number of stored tokens.
    pub fn len(&self) -> (n: usize)
        ensures
            n == self@.len(),
    {
        self.args.len()
    }

    /// Returns whether the collection has no tokens.
    pub fn is_empty(&self) -> (b: bool)
        ensures
            b == (self@.len() == 0),
    {
        self.args.len() == 0
    }

    /// Returns a borrowed iterator over stored tokens, first to last.
    pub fn iter(&self) -> (it: std::slice::Iter<'_, Arg>)
        ensures
            vstd::std_specs::slice::into_iter_elts(it).map_values(|a: Arg| a@) == self@,
    {
        self.args.as_slice().iter()
    }

    /// Returns the underlying owned vector.
    pub fn into_vec(self) -> (v: Vec<Arg>)
        ensures
            v@.map_values(|a: Arg| a@) == self@,
    {
        self.args
    }
}

impl Clone for RawArgs {
    fn clone(&self) -> (c: Self)
        ensures
            c@ == self@,
    {
        let mut args: Vec<Arg> = Vec::new();
        let mut i: usize = 0;
        while i < self.args.len()
            invariant
                i <= self.args.len(),
                args@.len() == i,
                forall|k: int| 0 <= k < i ==> #[trigger] args@[k]@ == self.args@[k]@,
            decreases self.args.len() - i,
        {
            let a = self.args[i].clone();
            args.push(a);
            i = i + 1;
        }
        assert(args@.map_values(|a: Arg| a@) =~= self.args@.map_values(|a: Arg| a@));
        RawArgs { args }
    }
}

impl IntoIterator for RawArgs {
    type Item = Arg;
    type IntoIter = std::vec::IntoIter<Arg>;

    fn into_iter(self) -> (it: std::vec::IntoIter<Arg>)
        ensures
            vstd::std_specs::vec::into_iter_elts(it).map_values(|a: Arg| a@) == self@,
    {
        self.args.into_iter()
    }
}

impl<'a> IntoIterator for &'a RawArgs {
    type Item = &'a Arg;
    type IntoIter = std::slice::Iter<'a, Arg>;

    fn into_iter(self) -> (it: std::slice::Iter<'a, Arg>)
        ensures
            vstd::std_specs::slice::into_iter_elts(it).map_values(|a: Arg| a@) == self@,
    {
        self.iter()
    }
}

/// Returns whether a token is the `--` option separator.
pub fn is_option_separator(token: &str) -> (b: bool)
    ensures
        b == spec_is_option_separator(token@),
        b <==> (token@.len() == 2 && token@[0] == '-' && token@[1] == '-'),
{
    proof {
        lemma_option_separator_rule(token@);
    }
    let v = chars_of(token);
    let b = v.len() == 2 && v[0] == '-' && v[1] == '-';
    assert(b ==> v@ =~= seq!['-', '-']);
    b
}

/// Returns whether a token looks like a flag or option token.
pub fn is_flag_like(token: &str) -> (b: bool)
    ensures
        b == spec_is_flag_like(token@),
        b <==> (token@.len() >= 2 && token@[0] == '-' && !(token@.len() == 2 && token@[1] == '-')),
{
    proof {
        lemma_flag_like_rule(token@);
    }
    let v = chars_of(token);
    let b = v.len() > 0 && v[0] == '-' && v.len() != 1 && !(v.len() == 2 && v[1] == '-');
    assert(v@.len() == 1 && v@[0] == '-' ==> v@ =~= seq!['-']);
    assert(v@.len() == 2 && v@[0] == '-' && v@[1] == '-' ==> v@ =~= seq!['-', '-']);
    b
}

/// Returns whether a token looks positional.
pub fn is_positional(token: &str) -> (b: bool)
    ensures
        b == spec_is_positional(token@),
        b <==> (token@.len() == 0 || token@[0] != '-' || token@.len() == 1),
{
    proof {
        lemma_positional_rule(token@);
    }
    !is_option_separator(token) && !is_flag_like(token)
}

} // verus!
