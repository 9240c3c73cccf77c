//! The arguments of the command line: `--name`, with or without a value
//! after it.

use vstd::prelude::*;
use vstd::string::StrSliceExecFns;
use crate::text::text_equals;

verus! {

/// One argument of the command line.
pub struct Argument {
    /// The name, without the two dashes in front of it.
    pub name: String,
    /// The word that followed the name, if one did.
    pub value: Option<String>,
}

/// An `Argument` over plain text.
pub struct ArgumentView {
    pub name: Seq<char>,
    pub value: Option<Seq<char>>,
}

impl View for Argument {
    type V = ArgumentView;

    open spec fn view(&self) -> ArgumentView {
        ArgumentView {
            name: self.name@,
            value: match self.value {
                Some(text) => Some(text@),
                None => None,
            },
        }
    }
}

/// The arguments that a command line holds.
pub struct ArgumentsParser {
    arguments: Vec<Argument>,
}

/// A word that names an argument: it starts with two dashes.
pub open spec fn is_flag(word: Seq<char>) -> bool {
    word.len() >= 2 && word[0] == '-' && word[1] == '-'
}

/// The arguments that the words of a command line spell.
///
/// A word that starts with two dashes opens an argument, named by the rest of
/// the word. Any other word becomes the value of the argument that was opened
/// last, in place of an earlier value; before the first argument it is
/// passed over.
pub open spec fn parsed(words: Seq<Seq<char>>) -> Seq<ArgumentView>
    decreases words.len(),
{
    if words.len() == 0 {
        Seq::empty()
    } else {
        let before = parsed(words.drop_last());
        let word = words.last();
        if is_flag(word) {
            before.push(ArgumentView { name: word.skip(2), value: None })
        } else if before.len() > 0 {
            before.update(
                before.len() - 1,
                ArgumentView { name: before.last().name, value: Some(word) },
            )
        } else {
            before
        }
    }
}

/// The first of `arguments` that is called `name`.
pub open spec fn find_argument(arguments: Seq<ArgumentView>, name: Seq<char>) -> Option<
    ArgumentView,
>
    decreases arguments.len(),
{
    if arguments.len() == 0 {
        None
    } else if arguments[0].name == name {
        Some(arguments[0])
    } else {
        find_argument(arguments.drop_first(), name)
    }
}

fn word_is_flag(word: &str) -> (flag: bool)
    ensures
        flag == is_flag(word@),
{
    word.unicode_len() >= 2 && word.get_char(0) == '-' && word.get_char(1) == '-'
}

impl View for ArgumentsParser {
    type V = Seq<ArgumentView>;

    closed spec fn view(&self) -> Seq<ArgumentView> {
        self.arguments.deep_view()
    }
}

impl DeepView for Argument {
    type V = ArgumentView;

    open spec fn deep_view(&self) -> ArgumentView {
        self@
    }
}

impl ArgumentsParser {
    /// Reads the arguments from the words of a command line.
    pub fn new(args: Vec<String>) -> (parser: ArgumentsParser)
        ensures
            parser@ == parsed(args.deep_view()),
    {
        let mut parser = ArgumentsParser { arguments: Vec::new() };
        assert(parser@ =~= Seq::<ArgumentView>::empty());
        parser.parse(args);
        assert(Seq::<ArgumentView>::empty() + parsed(args.deep_view()) =~= parsed(
            args.deep_view(),
        ));
        parser
    }

    /// Reads the words of a command line and adds their arguments to those
    /// that the parser holds.
    fn parse(&mut self, args: Vec<String>)
        ensures
            final(self)@ == old(self)@ + parsed(args.deep_view()),
    {
        let ghost words = args.deep_view();
        let ghost held = self@;
        let mut current_argument: Option<Argument> = None;
        let mut i: usize = 0;
        assert(words.take(0) =~= Seq::<Seq<char>>::empty());
        assert(held + Seq::<ArgumentView>::empty() =~= held);
        while i < args.len()
            invariant
                i <= args.len(),
                words == args.deep_view(),
                match current_argument {
                    Some(argument) => {
                        let spelled = parsed(words.take(i as int));
                        &&& spelled.len() > 0
                        &&& spelled.last() == argument@
                        &&& self@ == held + spelled.drop_last()
                    },
                    None => parsed(words.take(i as int)).len() == 0 && self@ == held,
                },
            decreases args.len() - i,
        {
            let arg = args[i].clone();
            let ghost before = parsed(words.take(i as int));
            assert(words.take(i + 1).drop_last() =~= words.take(i as int));
            assert(words.take(i + 1).last() == arg@);
            if word_is_flag(arg.as_str()) {
                if let Some(argument) = current_argument {
                    let ghost listed = self@;
                    self.arguments.push(argument);
                    assert(self@ =~= listed.push(argument@));
                    assert(self@ =~= held + before);
                }
                let length = arg.as_str().unicode_len();
                let name = arg.as_str().substring_char(2, length).to_owned();
                assert(name@ =~= arg@.skip(2));
                current_argument = Some(Argument { name, value: None });
                assert(before.push(current_argument->0@).drop_last() =~= before);
                assert(held + before =~= self@);
            } else {
                if let Some(argument) = current_argument {
                    let renewed = Argument { name: argument.name, value: Some(arg) };
                    assert(before.update(before.len() - 1, renewed@).drop_last()
                        =~= before.drop_last());
                    current_argument = Some(renewed);
                }
            }
            i = i + 1;
        }
        assert(words.take(args.len() as int) =~= words);
        if let Some(argument) = current_argument {
            let ghost listed = self@;
            self.arguments.push(argument);
            assert(self@ =~= listed.push(argument@));
            assert(self@ =~= held + parsed(words));
        } else {
            assert(self@ =~= held + parsed(words));
        }
    }

    /// The arguments as they are held, in the order of the command line.
    pub closed spec fn arguments(&self) -> Seq<Argument> {
        self.arguments@
    }

    /// Tells whether an argument called `name` was given.
    pub fn has_argument(&self, name: &str) -> (found: bool)
        ensures
            found == find_argument(self@, name@) is Some,
    {
        let mut i: usize = 0;
        assert(self@.skip(0) =~= self@);
        while i < self.arguments.len()
            invariant
                i <= self.arguments.len(),
                find_argument(self@, name@) == find_argument(self@.skip(i as int), name@),
            decreases self.arguments.len() - i,
        {
            assert(self@.skip(i as int).drop_first() =~= self@.skip(i + 1));
            if text_equals(self.arguments[i].name.as_str(), name) {
                return true;
            }
            i = i + 1;
        }
        false
    }

    /// The value of the first argument called `name`. There is none where no
    /// such argument was given, and where the first one came without a value.
    pub fn get_value(&self, name: &str) -> (value: Option<String>)
        ensures
            match find_argument(self@, name@) {
                Some(argument) => match argument.value {
                    Some(text) => value is Some && value->0@ == text,
                    None => value is None,
                },
                None => value is None,
            },
    {
        let mut i: usize = 0;
        assert(self@.skip(0) =~= self@);
        while i < self.arguments.len()
            invariant
                i <= self.arguments.len(),
                find_argument(self@, name@) == find_argument(self@.skip(i as int), name@),
            decreases self.arguments.len() - i,
        {
            assert(self@.skip(i as int).drop_first() =~= self@.skip(i + 1));
            if text_equals(self.arguments[i].name.as_str(), name) {
                return match &self.arguments[i].value {
                    Some(text) => Some(text.clone()),
                    None => None,
                };
            }
            i = i + 1;
        }
        None
    }

    /// The names of the arguments, in the order of the command line.
    pub fn names(&self) -> (names: Vec<String>)
        ensures
            names.deep_view() == self@.map_values(|argument: ArgumentView| argument.name),
    {
        let mut names: Vec<String> = Vec::new();
        let mut i: usize = 0;
        while i < self.arguments.len()
            invariant
                i <= self.arguments.len(),
                names.len() == i,
                forall|k: int| 0 <= k < i ==> (#[trigger] names[k])@ == self@[k].name,
            decreases self.arguments.len() - i,
        {
            names.push(self.arguments[i].name.clone());
            i = i + 1;
        }
        assert(names.deep_view() =~= self@.map_values(|argument: ArgumentView| argument.name));
        names
    }

    /// Calls `f` on each argument, in the order of the command line.
    pub fn for_each_argument<F>(&self, mut f: F) where F: FnMut(&Argument)
        requires
            forall|i: int|
                0 <= i < self.arguments().len() ==> call_requires(
                    f,
                    (&#[trigger] self.arguments()[i],),
                ),
    {
        let mut i: usize = 0;
        while i < self.arguments.len()
            invariant
                i <= self.arguments.len(),
                forall|k: int|
                    0 <= k < self.arguments().len() ==> call_requires(
                        f,
                        (&#[trigger] self.arguments()[k],),
                    ),
            decreases self.arguments.len() - i,
        {
            assert(call_requires(f, (&self.arguments()[i as int],)));
            f(&self.arguments[i]);
            i = i + 1;
        }
    }
}

} // verus!
