//! Option arguments of a bot command: `name`, `+name`, `-name` and
//! `name=value`.

use vstd::prelude::*;
use vstd::string::*;
use crate::chars::{chars_of, copy_range, find_char, same_text, split_words, string_of};

verus! {

/// The value that an argument carries.
#[derive(Debug, Clone, PartialEq, Eq)]
pub enum ArgValue {
    /// `+opt` is `true`, `-opt` is `false`.
    Bool(bool),
    /// `arg=abc`.
    KV(String),
}

/// Mathematical value of an [`ArgValue`].
pub enum ArgValueView {
    Bool(bool),
    KV(Seq<char>),
}

impl View for ArgValue {
    type V = ArgValueView;

    open spec fn view(&self) -> ArgValueView {
        match self {
            ArgValue::Bool(b) => ArgValueView::Bool(*b),
            ArgValue::KV(s) => ArgValueView::KV(s@),
        }
    }
}

/// One parsed argument.
#[derive(Debug, Clone, PartialEq, Eq)]
pub struct Arg {
    pub name: String,
    pub value: Option<ArgValue>,
}

/// Mathematical value of an [`Arg`].
pub struct ArgView {
    pub name: Seq<char>,
    pub value: Option<ArgValueView>,
}

impl View for Arg {
    type V = ArgView;

    open spec fn view(&self) -> ArgView {
        ArgView {
            name: self.name@,
            value: match self.value {
                Some(v) => Some(v@),
                None => None,
            },
        }
    }
}

/// Why a command's arguments were refused.
#[derive(Debug, Clone, PartialEq, Eq)]
pub enum ArgError {
    /// A word has both a sign and a value, as in `+opt=abc`.
    SignWithValue,
    /// The command does not know the argument, or knows it in another form.
    Unrecognized(Arg),
}

/// Whether the word starts with `+` or `-`.
pub open spec fn is_signed(s: Seq<char>) -> bool {
    s.len() > 0 && (s[0] == '+' || s[0] == '-')
}

/// What a word means as an argument; `None` where it is refused.
pub open spec fn parse_arg(s: Seq<char>) -> Option<ArgView> {
    let eq = crate::chars::first_index(s, '=') as int;
    if is_signed(s) && s.contains('=') {
        None
    } else if is_signed(s) {
        Some(ArgView { name: s.skip(1), value: Some(ArgValueView::Bool(s[0] == '+')) })
    } else if s.contains('=') {
        Some(ArgView { name: s.take(eq), value: Some(ArgValueView::KV(s.skip(eq + 1))) })
    } else {
        Some(ArgView { name: s, value: None })
    }
}

/// How an argument is shown in a message. A signed argument is shown as the
/// word `true` or `false` followed by its name.
pub open spec fn arg_text(a: ArgView) -> Seq<char> {
    match a.value {
        Some(ArgValueView::Bool(true)) => "true"@ + a.name,
        Some(ArgValueView::Bool(false)) => "false"@ + a.name,
        Some(ArgValueView::KV(v)) => a.name + "="@ + v,
        None => a.name,
    }
}

impl Arg {
    /// Parses one word.
    pub fn parse(input: &str) -> (r: Result<Arg, ArgError>)
        ensures
            match r {
                Ok(arg) => parse_arg(input@) == Some(arg@),
                Err(e) => parse_arg(input@).is_none() && e == ArgError::SignWithValue,
            },
    {
        let chars = chars_of(input);
        let n = chars.len();
        let eq = find_char(&chars, '=');
        proof {
            crate::chars::lemma_first_index(chars@, '=');
        }
        let signed = n > 0 && (chars[0] == '+' || chars[0] == '-');
        if signed && eq < n {
            Err(ArgError::SignWithValue)
        } else if signed {
            let name = copy_range(&chars, 1, n);
            assert(name@ =~= chars@.skip(1));
            Ok(Arg { name: string_of(name.as_slice()), value: Some(ArgValue::Bool(chars[0] == '+')) })
        } else if eq < n {
            let name = copy_range(&chars, 0, eq);
            let value = copy_range(&chars, eq + 1, n);
            assert(name@ =~= chars@.take(eq as int));
            assert(value@ =~= chars@.skip(eq + 1));
            Ok(
                Arg {
                    name: string_of(name.as_slice()),
                    value: Some(ArgValue::KV(string_of(value.as_slice()))),
                },
            )
        } else {
            Ok(Arg { name: input.to_owned(), value: None })
        }
    }

    /// The argument as it is shown in a message.
    pub fn to_text(&self) -> (s: String)
        ensures
            s@ == arg_text(self@),
    {
        match &self.value {
            Some(ArgValue::Bool(enable)) => {
                let head = if *enable {
                    String::from_str("true")
                } else {
                    String::from_str("false")
                };
                head.concat(self.name.as_str())
            },
            Some(ArgValue::KV(value)) => {
                let s = self.name.clone().concat("=");
                s.concat(value.as_str())
            },
            None => self.name.clone(),
        }
    }
}

impl ArgError {
    /// The text that tells the user what was wrong.
    pub fn message(&self) -> (s: String)
        ensures
            s@ == match *self {
                ArgError::SignWithValue => "+/-option with =value is not supported yet"@,
                ArgError::Unrecognized(arg) => "unrecognized or ill-formed argument: "@
                    + arg_text(arg@),
            },
    {
        match self {
            ArgError::SignWithValue => String::from_str(
                "+/-option with =value is not supported yet",
            ),
            ArgError::Unrecognized(arg) => {
                let shown = arg.to_text();
                String::from_str("unrecognized or ill-formed argument: ").concat(shown.as_str())
            },
        }
    }
}

/// Whether every word is an argument.
pub open spec fn all_parse(ws: Seq<Seq<char>>) -> bool {
    forall|i: int| 0 <= i < ws.len() ==> parse_arg(#[trigger] ws[i]).is_some()
}

/// Parses every word of a line of arguments, separated by white space. One
/// word that is no argument refuses the whole line.
pub fn parse_words(input: &str) -> (r: Result<Vec<Arg>, ArgError>)
    ensures
        match r {
            Ok(args) => {
                let ws = crate::chars::words(input@);
                &&& all_parse(ws)
                &&& args@.len() == ws.len()
                &&& forall|k: int|
                    0 <= k < ws.len() ==> parse_arg(ws[k]) == Some((#[trigger] args@[k])@)
            },
            Err(e) => !all_parse(crate::chars::words(input@)) && e == ArgError::SignWithValue,
        },
{
    let ws = split_words(input);
    let ghost words = crate::chars::words(input@);
    let mut parsed: Vec<Arg> = Vec::new();
    let mut i: usize = 0;
    while i < ws.len()
        invariant
            i <= ws.len(),
            words == crate::chars::words(input@),
            ws@.len() == words.len(),
            forall|k: int| 0 <= k < ws@.len() ==> (#[trigger] ws@[k])@ == words[k],
            parsed@.len() == i,
            forall|k: int| 0 <= k < i ==> parse_arg(words[k]) == Some((#[trigger] parsed@[k])@),
        decreases ws.len() - i,
    {
        match Arg::parse(ws[i].as_str()) {
            Ok(arg) => {
                parsed.push(arg);
            },
            Err(e) => {
                assert(parse_arg(words[i as int]).is_none());
                return Err(ArgError::SignWithValue);
            },
        }
        i += 1;
    }
    assert(all_parse(words)) by {
        assert forall|k: int| 0 <= k < words.len() implies parse_arg(
            #[trigger] words[k],
        ).is_some() by {
            assert(parse_arg(words[k]) == Some(parsed@[k]@));
        }
    }
    Ok(parsed)
}

/// The options of one command. A command lists its options by saying what
/// each argument does to them.
pub trait Args: Sized {
    /// The text that explains the command's options.
    fn help() -> &'static str;

    /// Makes the options before any argument is read.
    fn fresh() -> Self;

    /// Applies one argument and says whether the command knows it.
    fn accept(&mut self, arg: &Arg) -> bool;
}

/// Reads a line of arguments for the command `T`: all the words are parsed,
/// then applied in order up to the first that the command refuses. What the
/// options are in the end is for the command to say.
pub fn parse_inner<T: Args>(input: &str) -> (r: Result<T, ArgError>)
    ensures
        r matches Err(ArgError::SignWithValue) <==> !all_parse(crate::chars::words(input@)),
        r matches Err(ArgError::Unrecognized(arg)) ==> exists|k: int|
            0 <= k < crate::chars::words(input@).len() && parse_arg(
                #[trigger] crate::chars::words(input@)[k],
            ) == Some(arg@),
        crate::chars::words(input@).len() == 0 ==> r is Ok,
{
    let mut parsed = match parse_words(input) {
        Ok(parsed) => parsed,
        Err(e) => {
            return Err(e);
        },
    };
    let mut args = T::fresh();
    let mut j: usize = 0;
    while j < parsed.len()
        invariant
            j <= parsed.len(),
            all_parse(crate::chars::words(input@)),
            parsed@.len() == crate::chars::words(input@).len(),
            forall|k: int|
                0 <= k < parsed@.len() ==> parse_arg(crate::chars::words(input@)[k]) == Some(
                    (#[trigger] parsed@[k])@,
                ),
        decreases parsed.len() - j,
    {
        let ok = args.accept(&parsed[j]);
        if !ok {
            let arg = parsed.swap_remove(j);
            assert(parse_arg(crate::chars::words(input@)[j as int]) == Some(arg@));
            return Err(ArgError::Unrecognized(arg));
        }
        j += 1;
    }
    Ok(args)
}

/// The options of the command that posts a message.
#[derive(Debug, Clone, Copy, PartialEq, Eq, Structural)]
pub struct PostArgs {
    /// Show the help text and do nothing else.
    pub help: bool,
    /// Whether to say where the message came from: `Some(true)` always,
    /// `Some(false)` never, `None` unless the sender posts their own message.
    pub src: Option<bool>,
}

/// How the reading of the posting command's arguments ends.
pub enum PostOutcome {
    /// Every argument was applied; these are the options.
    Done(PostArgs),
    /// The command refused this argument, the first that it refused.
    Refused(ArgView),
}

impl PostArgs {
    /// The options before any argument is read.
    pub open spec fn initial() -> PostArgs {
        PostArgs { help: false, src: None }
    }

    /// The options after one more argument, or `None` where the command
    /// refuses it: it knows the bare word `help`, and `src` with a sign.
    pub open spec fn applied(self, arg: ArgView) -> Option<PostArgs> {
        match arg.value {
            None if arg.name == "help"@ => Some(PostArgs { help: true, src: self.src }),
            Some(ArgValueView::Bool(enable)) if arg.name == "src"@ => Some(
                PostArgs { help: self.help, src: Some(enable) },
            ),
            _ => None,
        }
    }

    /// The text that explains the command's options.
    pub open spec fn help_text() -> Seq<char> {
        "Usage: reply /post [option]* to a message\n\nOptions:\n  help   : show this help message\n  +/-src : force enable / disable appending message source (default: auto)\n           e.g. +src : sync with message source, including your own message\n                -src : sync without any source\n                *not-specified* (auto) : sync with message source, excluding your own message\n"@
    }

    /// Applies the words in order up to the first that the command refuses.
    pub open spec fn apply_all(self, ws: Seq<Seq<char>>) -> PostOutcome
        decreases ws.len(),
    {
        if ws.len() == 0 {
            PostOutcome::Done(self)
        } else {
            let arg = parse_arg(ws[0]).unwrap();
            match self.applied(arg) {
                Some(next) => next.apply_all(ws.drop_first()),
                None => PostOutcome::Refused(arg),
            }
        }
    }

    /// Reads the arguments of the command.
    pub fn parse(input: &str) -> (r: Result<PostArgs, ArgError>)
        ensures
            match r {
                Ok(args) => all_parse(crate::chars::words(input@)) && PostArgs::initial().apply_all(
                    crate::chars::words(input@),
                ) == PostOutcome::Done(args),
                Err(ArgError::SignWithValue) => !all_parse(crate::chars::words(input@)),
                Err(ArgError::Unrecognized(arg)) => all_parse(crate::chars::words(input@))
                    && PostArgs::initial().apply_all(crate::chars::words(input@))
                    == PostOutcome::Refused(arg@),
            },
    {
        let mut parsed = match parse_words(input) {
            Ok(parsed) => parsed,
            Err(e) => {
                return Err(e);
            },
        };
        let ghost words = crate::chars::words(input@);
        let mut args = PostArgs::fresh();
        let mut j: usize = 0;
        assert(words.skip(0) =~= words);
        while j < parsed.len()
            invariant
                j <= parsed.len(),
                words == crate::chars::words(input@),
                all_parse(words),
                parsed@.len() == words.len(),
                forall|k: int|
                    0 <= k < parsed@.len() ==> parse_arg(words[k]) == Some(
                        (#[trigger] parsed@[k])@,
                    ),
                PostArgs::initial().apply_all(words) == args.apply_all(words.skip(j as int)),
            decreases parsed.len() - j,
        {
            let ghost rest = words.skip(j as int);
            assert(rest[0] == words[j as int]);
            assert(rest.drop_first() =~= words.skip(j + 1));
            assert(parse_arg(rest[0]) == Some(parsed@[j as int]@));
            let ok = args.accept(&parsed[j]);
            if !ok {
                let arg = parsed.swap_remove(j);
                return Err(ArgError::Unrecognized(arg));
            }
            j += 1;
        }
        Ok(args)
    }
}

impl Args for PostArgs {
    fn help() -> (r: &'static str)
        ensures
            r@ == PostArgs::help_text(),
    {
        "Usage: reply /post [option]* to a message\n\nOptions:\n  help   : show this help message\n  +/-src : force enable / disable appending message source (default: auto)\n           e.g. +src : sync with message source, including your own message\n                -src : sync without any source\n                *not-specified* (auto) : sync with message source, excluding your own message\n"
    }

    fn fresh() -> (r: Self)
        ensures
            r == PostArgs::initial(),
    {
        PostArgs { help: false, src: None }
    }

    fn accept(&mut self, arg: &Arg) -> (ok: bool)
        ensures
            ok == old(self).applied(arg@).is_some(),
            ok ==> Some(*final(self)) == old(self).applied(arg@),
    {
        if same_text(arg.name.as_str(), "help") && arg.value.is_none() {
            self.help = true;
            return true;
        }
        if same_text(arg.name.as_str(), "src") {
            if let Some(ArgValue::Bool(enable)) = &arg.value {
                self.src = Some(*enable);
                return true;
            }
        }
        false
    }
}

impl Default for PostArgs {
    /// The options before any argument is read.
    fn default() -> (r: PostArgs)
        ensures
            r == PostArgs::initial(),
    {
        PostArgs { help: false, src: None }
    }
}

} // verus!
