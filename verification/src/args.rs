//! Building an argument list one composition step at a time.

use crate::text::TokenText;
use vstd::prelude::*;

verus! {

/// The tokens that a slice of string slices spells out.
pub open spec fn tokens_of(args: Seq<&str>) -> Seq<Seq<char>> {
    args.map_values(|s: &str| s@)
}

/// What a valued parameter contributes: the flag and the value's text when the
/// value is present, nothing when it is absent.
pub open spec fn valued_tokens<T: TokenText>(flag: Seq<char>, value: Option<T>) -> Seq<Seq<char>> {
    match value {
        Some(v) => seq![flag, v.text()],
        None => Seq::empty(),
    }
}

/// What a boolean switch contributes: the flag alone when the condition holds.
pub open spec fn flag_tokens(flag: Seq<char>, condition: bool) -> Seq<Seq<char>> {
    if condition {
        seq![flag]
    } else {
        Seq::empty()
    }
}

/// An argument list under construction. Tokens stay in the order in which the
/// composition calls were made.
pub struct ArgsBuilder {
    args: Vec<String>,
}

impl View for ArgsBuilder {
    type V = Seq<Seq<char>>;

    closed spec fn view(&self) -> Seq<Seq<char>> {
        self.args@.map_values(|s: String| s@)
    }
}

impl ArgsBuilder {
    /// Starts a list with the given leading tokens.
    pub fn new(initial: &[&str]) -> (builder: Self)
        ensures
            builder@ == tokens_of(initial@),
    {
        let mut args: Vec<String> = Vec::new();
        let mut i: usize = 0;
        while i < initial.len()
            invariant
                i <= initial.len(),
                args.len() == i,
                forall|j: int| 0 <= j < i ==> args[j]@ == initial[j]@,
            decreases initial.len() - i,
        {
            args.push(initial[i].to_owned());
            i += 1;
        }
        let builder = ArgsBuilder { args };
        assert(builder@ =~= tokens_of(initial@));
        builder
    }

    /// Appends `flag` and the text of `value` when a value is given, and
    /// leaves the list as it is otherwise.
    pub fn add_opt<T: TokenText>(&mut self, flag: &str, value: Option<T>) -> (ret: &mut Self)
        ensures
            ret@ == old(self)@ + valued_tokens(flag@, value),
            *final(self) == *final(ret),
    {
        if let Some(v) = value {
            self.args.push(flag.to_owned());
            self.args.push(v.to_token());
        }
        assert(self@ =~= old(self)@ + valued_tokens(flag@, value));
        self
    }

    /// Appends `flag` when `condition` holds, and leaves the list as it is
    /// otherwise.
    pub fn add_flag(&mut self, flag: &str, condition: bool) -> (ret: &mut Self)
        ensures
            ret@ == old(self)@ + flag_tokens(flag@, condition),
            !condition ==> ret@ == old(self)@,
            *final(self) == *final(ret),
    {
        if condition {
            self.args.push(flag.to_owned());
        }
        assert(self@ =~= old(self)@ + flag_tokens(flag@, condition));
        assert(!condition ==> self@ =~= old(self)@);
        self
    }

    /// Appends `arg`.
    pub fn add(&mut self, arg: &str) -> (ret: &mut Self)
        ensures
            ret@ == old(self)@.push(arg@),
            *final(self) == *final(ret),
    {
        self.args.push(arg.to_owned());
        assert(self@ =~= old(self)@.push(arg@));
        self
    }

    /// The tokens as string slices, in order, ready to be handed to a
    /// launcher.
    pub fn as_refs(&self) -> (refs: Vec<&str>)
        ensures
            tokens_of(refs@) == self@,
    {
        let mut refs: Vec<&str> = Vec::new();
        let mut i: usize = 0;
        while i < self.args.len()
            invariant
                i <= self.args.len(),
                refs.len() == i,
                forall|j: int| 0 <= j < i ==> refs[j]@ == self.args[j]@,
            decreases self.args.len() - i,
        {
            refs.push(self.args[i].as_str());
            i += 1;
        }
        assert(tokens_of(refs@) =~= self@);
        refs
    }
}

} // verus!
