//! The resolver facade: the two questions put to a resolver executable, and
//! the reading of its answer to the second.
//!
//! `resolve` asks for the candidate packages that an identifier may mean,
//! `view` for the description of one package. Either way the answer comes as
//! the payloads of the protocol lines of one [`Subprocess`] run.

use crate::error::{CliError, Failure};
use crate::process::{verdict, ExitModel, ProcessExit, Subprocess, SubprocessModel};
use crate::multiplexer::MultiplexerModel;
use crate::protocol::{
    after_prefix, after_prefix_of_concat, payloads, payloads_are_the_protocol_lines,
    protocol_lines, strip_prefix, values_after, values_after_insert, values_after_none,
    values_after_push, SENTINEL,
};
use vstd::prelude::*;

verus! {

/// The field tag of a payload that carries the title of a package.
pub const TITLE_TAG: &'static str = "title::";

/// The field tag of a payload that carries the description of a package.
pub const DESCRIPTION_TAG: &'static str = "description::";

/// The field tag of a payload that carries one piece of the readme of a
/// package.
pub const README_TAG: &'static str = "readme::";

/// The first argument of a resolver that is asked for candidates.
pub const RESOLVE_COMMAND: &'static str = "resolve";

/// The first argument of a resolver that is asked for a description.
pub const VIEW_COMMAND: &'static str = "view";

/// A resolver executable, by the path it is started from.
pub struct Resolver {
    path: String,
}

impl Resolver {
    /// The path that this resolver is started from.
    pub closed spec fn program(&self) -> Seq<char> {
        self.path@
    }

    /// The resolver executable at `path`.
    pub fn new(path: String) -> (resolver: Resolver)
        ensures
            resolver.program() == path@,
    {
        Resolver { path }
    }

    /// A run of this resolver with `args`, yet to be started.
    pub fn spawn(&self, args: Vec<String>) -> (process: Subprocess)
        ensures
            process@ == (SubprocessModel {
                program: self.program(),
                args: args.deep_view(),
                streams: MultiplexerModel::fresh(),
            }),
    {
        Subprocess::new(self.path.clone(), args)
    }

    /// The run that asks this resolver which packages `id` may mean. Its
    /// payloads are the candidates, one each, in the order the resolver ranks
    /// them in.
    pub fn resolve(&self, id: String) -> (process: Subprocess)
        ensures
            process@ == (SubprocessModel {
                program: self.program(),
                args: seq![RESOLVE_COMMAND@, id@],
                streams: MultiplexerModel::fresh(),
            }),
    {
        let mut args: Vec<String> = Vec::new();
        args.push(RESOLVE_COMMAND.to_owned());
        args.push(id);
        assert(args.deep_view() =~= seq![RESOLVE_COMMAND@, id@]);
        self.spawn(args)
    }

    /// The run that asks this resolver to describe the package `id`. Its
    /// payloads are the tagged fields of the description.
    pub fn view(&self, id: String) -> (process: Subprocess)
        ensures
            process@ == (SubprocessModel {
                program: self.program(),
                args: seq![VIEW_COMMAND@, id@],
                streams: MultiplexerModel::fresh(),
            }),
    {
        let mut args: Vec<String> = Vec::new();
        args.push(VIEW_COMMAND.to_owned());
        args.push(id);
        assert(args.deep_view() =~= seq![VIEW_COMMAND@, id@]);
        self.spawn(args)
    }
}

/// The content of a [`PackageView`].
pub struct PackageText {
    pub title: Seq<char>,
    pub description: Seq<char>,
    pub readme: Seq<char>,
}

/// The last of `values`, or the empty text where there is none.
pub open spec fn last_or_empty(values: Seq<Seq<char>>) -> Seq<char> {
    if values.len() == 0 {
        Seq::empty()
    } else {
        values.last()
    }
}

impl PackageText {
    /// The description of a package of which nothing is known.
    pub open spec fn empty() -> PackageText {
        PackageText { title: Seq::empty(), description: Seq::empty(), readme: Seq::empty() }
    }

    /// The description that `payloads` give: the title and the description
    /// are those given last, the readme is all its pieces in their order, and
    /// a field that no payload gives is empty. A payload with another tag, or
    /// with none, counts for nothing.
    pub open spec fn parse(payloads: Seq<Seq<char>>) -> PackageText {
        PackageText {
            title: last_or_empty(values_after(payloads, TITLE_TAG@)),
            description: last_or_empty(values_after(payloads, DESCRIPTION_TAG@)),
            readme: values_after(payloads, README_TAG@).flatten(),
        }
    }

    /// This description after one more payload.
    pub open spec fn record(self, payload: Seq<char>) -> PackageText {
        if let Some(title) = after_prefix(payload, TITLE_TAG@) {
            PackageText { title, ..self }
        } else if let Some(description) = after_prefix(payload, DESCRIPTION_TAG@) {
            PackageText { description, ..self }
        } else if let Some(piece) = after_prefix(payload, README_TAG@) {
            PackageText { readme: self.readme + piece, ..self }
        } else {
            self
        }
    }
}

/// What a `view` run of `program` amounts to, given the payloads of its
/// protocol lines and the way it ended: the description that the payloads
/// give where the run as such succeeded, and the error of the run where it
/// did not.
pub open spec fn described(program: Seq<char>, payloads: Seq<Seq<char>>, exit: ExitModel) -> Result<
    PackageText,
    Failure,
> {
    match verdict(program, payloads, exit) {
        Ok(payloads) => Ok(PackageText::parse(payloads)),
        Err(failure) => Err(failure),
    }
}

/// What a resolver tells of one package.
#[derive(Debug, PartialEq, Eq)]
pub struct PackageView {
    pub title: String,
    pub description: String,
    pub readme: String,
}

impl View for PackageView {
    type V = PackageText;

    open spec fn view(&self) -> PackageText {
        PackageText { title: self.title@, description: self.description@, readme: self.readme@ }
    }
}

impl Default for PackageView {
    /// The description of a package of which nothing is known: every field is
    /// empty.
    fn default() -> (view: PackageView)
        ensures
            view@ == PackageText::empty(),
    {
        PackageView { title: String::new(), description: String::new(), readme: String::new() }
    }
}

impl PackageView {
    /// Takes in one payload of a `view` run. A title or a description
    /// replaces the one held, a piece of the readme goes behind those held,
    /// and a payload with any other tag is passed over.
    pub fn record(&mut self, payload: &str)
        ensures
            final(self)@ == old(self)@.record(payload@),
    {
        match strip_prefix(payload, TITLE_TAG) {
            Some(title) => {
                self.title = title;
            },
            None => match strip_prefix(payload, DESCRIPTION_TAG) {
                Some(description) => {
                    self.description = description;
                },
                None => match strip_prefix(payload, README_TAG) {
                    Some(piece) => {
                        self.readme.append(piece.as_str());
                    },
                    None => {},
                },
            },
        }
    }

    /// The description that the payloads of a `view` run give.
    pub fn from_lines(lines: &Vec<String>) -> (view: PackageView)
        ensures
            view@ == PackageText::parse(lines.deep_view()),
    {
        let mut view = PackageView::default();
        let mut i: usize = 0;
        while i < lines.len()
            invariant
                i <= lines.len(),
                view@ == PackageText::parse(lines.deep_view().take(i as int)),
            decreases lines.len() - i,
        {
            proof {
                parse_of_push(lines.deep_view().take(i as int), lines[i as int]@);
                assert(lines.deep_view().take(i as int).push(lines[i as int]@)
                    =~= lines.deep_view().take(i + 1));
            }
            view.record(lines[i].as_str());
            i += 1;
        }
        assert(lines.deep_view().take(i as int) =~= lines.deep_view());
        view
    }

    /// What a finished `view` run amounts to: the description that its
    /// payloads give after exit status 0, an error that names the resolver
    /// after any other end, and never a description filled in part.
    pub fn from_run(process: Subprocess, exit: ProcessExit) -> (result: Result<PackageView, CliError>)
        requires
            process@.streams.drained(),
        ensures
            match result {
                Ok(view) => described(process@.program, process@.streams.buffered, exit@) == Ok::<
                    PackageText,
                    Failure,
                >(view@),
                Err(error) => described(process@.program, process@.streams.buffered, exit@)
                    == Err::<PackageText, Failure>(error@),
            },
    {
        match process.finish(exit) {
            Ok(lines) => Ok(PackageView::from_lines(&lines)),
            Err(error) => Err(error),
        }
    }
}

/// No payload carries two of the field tags: a text begins with at most one
/// of them.
pub proof fn field_tags_exclude_each_other(payload: Seq<char>)
    ensures
        !(TITLE_TAG@.is_prefix_of(payload) && DESCRIPTION_TAG@.is_prefix_of(payload)),
        !(TITLE_TAG@.is_prefix_of(payload) && README_TAG@.is_prefix_of(payload)),
        !(DESCRIPTION_TAG@.is_prefix_of(payload) && README_TAG@.is_prefix_of(payload)),
{
    reveal_strlit("title::");
    reveal_strlit("description::");
    reveal_strlit("readme::");
    if TITLE_TAG@.is_prefix_of(payload) {
        assert(payload.subrange(0, TITLE_TAG@.len() as int)[0] == 't');
    }
    if DESCRIPTION_TAG@.is_prefix_of(payload) {
        assert(payload.subrange(0, DESCRIPTION_TAG@.len() as int)[0] == 'd');
    }
    if README_TAG@.is_prefix_of(payload) {
        assert(payload.subrange(0, README_TAG@.len() as int)[0] == 'r');
    }
}

/// Reading payloads one by one gives the description of all of them: one more
/// payload changes the description as `record` says.
pub proof fn parse_of_push(payloads: Seq<Seq<char>>, payload: Seq<char>)
    ensures
        PackageText::parse(payloads.push(payload)) == PackageText::parse(payloads).record(payload),
{
    field_tags_exclude_each_other(payload);
    values_after_push(payloads, payload, TITLE_TAG@);
    values_after_push(payloads, payload, DESCRIPTION_TAG@);
    values_after_push(payloads, payload, README_TAG@);
    if let Some(piece) = after_prefix(payload, README_TAG@) {
        values_after(payloads, README_TAG@).lemma_flatten_push(piece);
    }
}

/// A field that no payload gives stays empty, whatever the payloads give
/// otherwise; with no payloads at all the whole description is empty.
pub proof fn absent_field_is_empty(payloads: Seq<Seq<char>>)
    ensures
        (forall|i: int|
            0 <= i < payloads.len() ==> after_prefix(#[trigger] payloads[i], TITLE_TAG@) is None)
            ==> PackageText::parse(payloads).title == Seq::<char>::empty(),
        (forall|i: int|
            0 <= i < payloads.len() ==> after_prefix(#[trigger] payloads[i], DESCRIPTION_TAG@)
                is None) ==> PackageText::parse(payloads).description == Seq::<char>::empty(),
        (forall|i: int|
            0 <= i < payloads.len() ==> after_prefix(#[trigger] payloads[i], README_TAG@) is None)
            ==> PackageText::parse(payloads).readme == Seq::<char>::empty(),
        payloads.len() == 0 ==> PackageText::parse(payloads) == PackageText::empty(),
{
    if forall|i: int|
        0 <= i < payloads.len() ==> after_prefix(#[trigger] payloads[i], TITLE_TAG@) is None {
        values_after_none(payloads, TITLE_TAG@);
    }
    if forall|i: int|
        0 <= i < payloads.len() ==> after_prefix(#[trigger] payloads[i], DESCRIPTION_TAG@)
            is None {
        values_after_none(payloads, DESCRIPTION_TAG@);
    }
    if forall|i: int|
        0 <= i < payloads.len() ==> after_prefix(#[trigger] payloads[i], README_TAG@) is None {
        values_after_none(payloads, README_TAG@);
    }
}

/// A payload that carries none of the three field tags changes nothing,
/// wherever it stands among the others.
pub proof fn unknown_field_is_dropped(payloads: Seq<Seq<char>>, at: int, payload: Seq<char>)
    requires
        0 <= at <= payloads.len(),
        after_prefix(payload, TITLE_TAG@) is None,
        after_prefix(payload, DESCRIPTION_TAG@) is None,
        after_prefix(payload, README_TAG@) is None,
    ensures
        PackageText::parse(payloads.insert(at, payload)) == PackageText::parse(payloads),
{
    values_after_insert(payloads, at, payload, TITLE_TAG@);
    values_after_insert(payloads, at, payload, DESCRIPTION_TAG@);
    values_after_insert(payloads, at, payload, README_TAG@);
}

/// The four fields of a description, sent as protocol lines among any
/// diagnostic lines, give that description: the title, the description, and
/// the two pieces of the readme joined in their order.
pub proof fn description_from_lines_among_diagnostics(
    lines: Seq<Seq<char>>,
    title: Seq<char>,
    description: Seq<char>,
    first: Seq<char>,
    second: Seq<char>,
)
    requires
        protocol_lines(lines) == seq![
            SENTINEL@ + (TITLE_TAG@ + title),
            SENTINEL@ + (DESCRIPTION_TAG@ + description),
            SENTINEL@ + (README_TAG@ + first),
            SENTINEL@ + (README_TAG@ + second),
        ],
    ensures
        PackageText::parse(payloads(lines)) == (PackageText {
            title,
            description,
            readme: first + second,
        }),
{
    let names = TITLE_TAG@ + title;
    let describes = DESCRIPTION_TAG@ + description;
    let begins = README_TAG@ + first;
    let goes_on = README_TAG@ + second;
    payloads_are_the_protocol_lines(lines);
    after_prefix_of_concat(SENTINEL@, names);
    after_prefix_of_concat(SENTINEL@, describes);
    after_prefix_of_concat(SENTINEL@, begins);
    after_prefix_of_concat(SENTINEL@, goes_on);
    assert(payloads(lines) =~= seq![names, describes, begins, goes_on]);
    let none: Seq<Seq<char>> = Seq::empty();
    assert(seq![names, describes, begins, goes_on] =~= none.push(names).push(describes).push(
        begins,
    ).push(goes_on));
    parse_of_push(none, names);
    parse_of_push(none.push(names), describes);
    parse_of_push(none.push(names).push(describes), begins);
    parse_of_push(none.push(names).push(describes).push(begins), goes_on);
    after_prefix_of_concat(TITLE_TAG@, title);
    after_prefix_of_concat(DESCRIPTION_TAG@, description);
    after_prefix_of_concat(README_TAG@, first);
    after_prefix_of_concat(README_TAG@, second);
    field_tags_exclude_each_other(names);
    field_tags_exclude_each_other(describes);
    field_tags_exclude_each_other(begins);
    field_tags_exclude_each_other(goes_on);
}

/// A `view` run that does not end with exit status 0 gives an error and no
/// description, whatever fields had come by then.
pub proof fn failed_view_gives_no_description(
    program: Seq<char>,
    payloads: Seq<Seq<char>>,
    others: Seq<Seq<char>>,
    exit: ExitModel,
)
    requires
        exit != ExitModel::Exited(0),
    ensures
        described(program, payloads, exit) is Err,
        described(program, payloads, exit) == described(program, others, exit),
{
}

} // verus!
