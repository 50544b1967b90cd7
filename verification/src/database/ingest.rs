//! The batch ingestion engine.
//!
//! The engine never touches the store. It says which statement the store is
//! to run next, takes the store's reply, and records what became of each
//! candidate path. Whoever drives it runs the statements, one at a time.

use crate::database::operations::{
    error_views, AddItemError, AddItemErrorView, AddItemsResult, AddItemsResultView,
};
use crate::database::statement::{
    bind_texts, placeholders, push_placeholders, text_views, texts, Parameter, ParameterView,
    Statement, StatementView,
};
use crate::path::{extension, title, title_and_extension};
use vstd::prelude::*;

pub mod laws;

verus! {

/// What the engine waits for.
#[derive(Debug, Clone, Copy, PartialEq, Eq, Structural)]
pub enum Phase {
    /// The reply to the lookup of the paths that the store already holds.
    Lookup,
    /// The reply to the insertion of the candidate under the cursor.
    Insert,
    /// Nothing: every candidate is accounted for.
    Finished,
}

/// What the store answered to the statement that the engine asked for.
#[derive(Debug, Clone, PartialEq, Eq)]
pub enum Reply {
    /// The paths that a lookup found.
    Paths(Vec<String>),
    /// The id of the row that an insertion made.
    Id(i64),
    /// The statement failed, with the store's message.
    Failure(String),
}

/// What a [`Reply`] holds.
pub enum ReplyView {
    Paths(Seq<Seq<char>>),
    Id(i64),
    Failure(Seq<char>),
}

impl View for Reply {
    type V = ReplyView;

    open spec fn view(&self) -> ReplyView {
        match self {
            Reply::Paths(paths) => ReplyView::Paths(text_views(paths@)),
            Reply::Id(id) => ReplyView::Id(*id),
            Reply::Failure(message) => ReplyView::Failure(message@),
        }
    }
}

/// The reason recorded for a candidate that is the empty path.
pub open spec fn empty_path_error() -> Seq<char> {
    "Empty path"@
}

/// The reason recorded for every candidate when the lookup failed with
/// `message`.
pub open spec fn lookup_error(message: Seq<char>) -> Seq<char> {
    "Failed to check for duplicates: "@ + message
}

/// The statement that looks up which of `paths` the store holds: one
/// placeholder and one bound parameter for each path.
pub open spec fn lookup_statement(paths: Seq<Seq<char>>) -> StatementView {
    StatementView {
        text: "SELECT path FROM items WHERE path IN ("@ + placeholders(paths.len()) + ")"@,
        parameters: texts(paths),
    }
}

/// The statement that inserts the item at `path` and asks for its id.
pub open spec fn insert_statement(path: Seq<char>) -> StatementView {
    StatementView {
        text: "INSERT INTO items (path, title, extension) VALUES (?, ?, ?) RETURNING id"@,
        parameters: seq![
            ParameterView::Text(path),
            ParameterView::Text(title(path)),
            ParameterView::Text(extension(path)),
        ],
    }
}

/// Every one of `paths` recorded as failed for the reason `error`, in order.
pub open spec fn all_failed(paths: Seq<Seq<char>>, error: Seq<char>) -> Seq<AddItemErrorView> {
    Seq::new(paths.len(), |i: int| AddItemErrorView { path: paths[i], error })
}

/// The state of an ingestion.
pub struct IngestionView {
    /// The candidates, in the order given.
    pub paths: Seq<Seq<char>>,
    /// How many candidates are accounted for.
    pub cursor: int,
    pub phase: Phase,
    /// What is recorded so far.
    pub result: AddItemsResultView,
}

/// The state in which the engine comes to rest when the candidates before
/// `cursor` are accounted for in `result`: it passes over each candidate that
/// `result` lists as a duplicate, records each empty one as an error, and
/// stops at the first that is to be inserted, or at the end.
pub open spec fn settle(paths: Seq<Seq<char>>, cursor: int, result: AddItemsResultView)
    -> IngestionView
    decreases paths.len() - cursor,
{
    if cursor < 0 || cursor >= paths.len() {
        IngestionView { paths, cursor: paths.len() as int, phase: Phase::Finished, result }
    } else if result.duplicates.contains(paths[cursor]) {
        settle(paths, cursor + 1, result)
    } else if paths[cursor].len() == 0 {
        settle(paths, cursor + 1, result.with_error(paths[cursor], empty_path_error()))
    } else {
        IngestionView { paths, cursor, phase: Phase::Insert, result }
    }
}

impl IngestionView {
    /// The state in which the ingestion of `paths` begins. An empty batch is
    /// finished at once, with nothing asked of the store.
    pub open spec fn begin(paths: Seq<Seq<char>>) -> IngestionView {
        if paths.len() == 0 {
            IngestionView {
                paths,
                cursor: 0,
                phase: Phase::Finished,
                result: AddItemsResultView::empty(),
            }
        } else {
            IngestionView {
                paths,
                cursor: 0,
                phase: Phase::Lookup,
                result: AddItemsResultView::empty(),
            }
        }
    }

    /// The statement that the store is to run next, if any.
    pub open spec fn request(self) -> Option<StatementView> {
        match self.phase {
            Phase::Lookup => Some(lookup_statement(self.paths)),
            Phase::Insert => Some(insert_statement(self.paths[self.cursor])),
            Phase::Finished => None,
        }
    }

    /// The state after the store's `reply` to [`request`](Self::request).
    ///
    /// A lookup that fails ends the batch with every candidate recorded as an
    /// error. A lookup that succeeds fixes the duplicates. An insertion that
    /// succeeds records the new id, one that fails records the candidate with
    /// the store's message; either way the engine goes on with the next
    /// candidate. A reply of a kind that was not asked for changes nothing.
    pub open spec fn resume(self, reply: ReplyView) -> IngestionView {
        match (self.phase, reply) {
            (Phase::Lookup, ReplyView::Paths(existing)) => settle(
                self.paths,
                0,
                AddItemsResultView { duplicates: existing, ..self.result },
            ),
            (Phase::Lookup, ReplyView::Failure(message)) => IngestionView {
                paths: self.paths,
                cursor: self.paths.len() as int,
                phase: Phase::Finished,
                result: AddItemsResultView {
                    errors: all_failed(self.paths, lookup_error(message)),
                    ..self.result
                },
            },
            (Phase::Insert, ReplyView::Id(id)) => settle(
                self.paths,
                self.cursor + 1,
                self.result.with_success(id),
            ),
            (Phase::Insert, ReplyView::Failure(message)) => settle(
                self.paths,
                self.cursor + 1,
                self.result.with_error(self.paths[self.cursor], message),
            ),
            _ => self,
        }
    }
}

/// The candidate `path` needs the store when the store reported `existing`:
/// it is not among them, and it is not empty.
pub open spec fn to_insert(existing: Seq<Seq<char>>, path: Seq<char>) -> bool {
    !existing.contains(path) && path.len() > 0
}

impl IngestionView {
    /// What holds of every state that an ingestion passes through. The
    /// cursor stays within the batch. While the lookup is awaited nothing is
    /// recorded. An insertion is asked for only of a candidate that the store
    /// did not report and that is not empty. A finished ingestion has every
    /// candidate behind it.
    pub open spec fn sound(self) -> bool {
        &&& 0 <= self.cursor <= self.paths.len()
        &&& self.phase == Phase::Lookup ==> self.paths.len() > 0 && self.cursor == 0 && self.result
            == AddItemsResultView::empty()
        &&& self.phase == Phase::Insert ==> self.cursor < self.paths.len() && to_insert(
            self.result.duplicates,
            self.paths[self.cursor],
        )
        &&& self.phase == Phase::Finished ==> self.cursor == self.paths.len()
    }
}

/// An ingestion under way.
pub struct Ingestion {
    paths: Vec<String>,
    cursor: usize,
    phase: Phase,
    result: AddItemsResult,
}

impl View for Ingestion {
    type V = IngestionView;

    closed spec fn view(&self) -> IngestionView {
        IngestionView {
            paths: text_views(self.paths@),
            cursor: self.cursor as int,
            phase: self.phase,
            result: self.result@,
        }
    }
}

/// Tells whether `list` holds `text`.
fn holds(list: &Vec<String>, text: &String) -> (r: bool)
    ensures
        r == text_views(list@).contains(text@),
{
    let mut i: usize = 0;
    while i < list.len()
        invariant
            i <= list.len(),
            forall|j: int| 0 <= j < i ==> text_views(list@)[j] != text@,
        decreases list.len() - i,
    {
        if list[i] == *text {
            assert(text_views(list@)[i as int] == text@);
            return true;
        }
        i += 1;
    }
    false
}

impl Ingestion {
    /// Every ingestion is in a sound state.
    #[verifier::type_invariant]
    spec fn well_formed(self) -> bool {
        self@.sound()
    }

    /// Begins the ingestion of `paths`.
    pub fn begin(paths: Vec<String>) -> (r: Ingestion)
        ensures
            r@ == IngestionView::begin(text_views(paths@)),
            r@.sound(),
    {
        let phase = if paths.len() == 0 {
            Phase::Finished
        } else {
            Phase::Lookup
        };
        let result = AddItemsResult {
            success: Vec::new(),
            duplicates: Vec::new(),
            errors: Vec::new(),
        };
        assert(result@.duplicates =~= Seq::empty());
        assert(result@.errors =~= Seq::empty());
        Ingestion { paths, cursor: 0, phase, result }
    }

    /// What the engine waits for.
    pub fn phase(&self) -> (r: Phase)
        ensures
            r == self@.phase,
    {
        self.phase
    }

    /// Tells whether every candidate is accounted for.
    pub fn finished(&self) -> (r: bool)
        ensures
            r == (self@.phase == Phase::Finished),
    {
        match self.phase {
            Phase::Finished => true,
            _ => false,
        }
    }

    /// The statement that the store is to run next: `None` once the
    /// ingestion is finished.
    pub fn request(&self) -> (r: Option<Statement>)
        ensures
            match r {
                Some(statement) => self@.request() == Some(statement@),
                None => self@.request().is_none(),
            },
    {
        proof {
            use_type_invariant(self);
            assert(self@.paths.len() == self.paths.len());
        }
        match self.phase {
            Phase::Lookup => {
                let mut text = String::from_str("SELECT path FROM items WHERE path IN (");
                push_placeholders(&mut text, self.paths.len());
                text.append(")");
                let parameters = bind_texts(&self.paths);
                Some(Statement { text, parameters })
            },
            Phase::Insert => {
                let path = &self.paths[self.cursor];
                let (title, extension) = title_and_extension(path.as_str());
                let mut parameters: Vec<Parameter> = Vec::new();
                parameters.push(Parameter::Text(path.clone()));
                parameters.push(Parameter::Text(title));
                parameters.push(Parameter::Text(extension));
                let text = String::from_str(
                    "INSERT INTO items (path, title, extension) VALUES (?, ?, ?) RETURNING id",
                );
                let statement = Statement { text, parameters };
                assert(statement@.parameters =~= insert_statement(
                    self@.paths[self@.cursor],
                ).parameters);
                Some(statement)
            },
            Phase::Finished => None,
        }
    }

    /// Comes to rest from `cursor` on, as [`settle`] says.
    #[verifier::loop_isolation(false)]
    fn rest(paths: Vec<String>, cursor: usize, result: AddItemsResult) -> (r: Ingestion)
        requires
            cursor <= paths.len(),
        ensures
            r@ == settle(text_views(paths@), cursor as int, result@),
            r@.sound(),
    {
        let ghost candidates = text_views(paths@);
        let ghost goal = settle(candidates, cursor as int, result@);
        let AddItemsResult { success, duplicates, errors } = result;
        let mut errors = errors;
        let mut at: usize = cursor;
        while at < paths.len()
            invariant
                at <= paths.len(),
                candidates == text_views(paths@),
                settle(
                    candidates,
                    at as int,
                    AddItemsResultView {
                        success: success@,
                        duplicates: text_views(duplicates@),
                        errors: error_views(errors@),
                    },
                ) == goal,
            decreases paths.len() - at,
        {
            let path = &paths[at];
            assert(candidates[at as int] == path@);
            if holds(&duplicates, path) {
                at += 1;
            } else if path.as_str().is_empty() {
                let ghost before = error_views(errors@);
                errors.push(AddItemError { path: path.clone(), error: String::from_str("Empty path") });
                assert(error_views(errors@) =~= before.push(
                    AddItemErrorView { path: candidates[at as int], error: empty_path_error() },
                ));
                at += 1;
            } else {
                return Ingestion {
                    paths,
                    cursor: at,
                    phase: Phase::Insert,
                    result: AddItemsResult { success, duplicates, errors },
                };
            }
        }
        Ingestion {
            paths,
            cursor: at,
            phase: Phase::Finished,
            result: AddItemsResult { success, duplicates, errors },
        }
    }

    /// Every one of `paths` recorded as failed for the reason `error`.
    fn fail_all(paths: &Vec<String>, error: &String) -> (errors: Vec<AddItemError>)
        ensures
            error_views(errors@) == all_failed(text_views(paths@), error@),
    {
        let mut errors: Vec<AddItemError> = Vec::new();
        let mut i: usize = 0;
        while i < paths.len()
            invariant
                i <= paths.len(),
                errors.len() == i,
                forall|j: int|
                    0 <= j < i ==> errors@[j]@ == (AddItemErrorView {
                        path: paths@[j]@,
                        error: error@,
                    }),
            decreases paths.len() - i,
        {
            errors.push(AddItemError { path: paths[i].clone(), error: error.clone() });
            i += 1;
        }
        assert(error_views(errors@) =~= all_failed(text_views(paths@), error@));
        errors
    }

    /// Takes the store's reply to the statement of [`request`](Self::request)
    /// and goes on to the next candidate that needs the store.
    pub fn resume(self, reply: Reply) -> (r: Ingestion)
        ensures
            r@ == self@.resume(reply@),
            self@.sound(),
            r@.sound(),
    {
        proof {
            use_type_invariant(&self);
            assert(self@.paths.len() == self.paths.len());
        }
        let Ingestion { paths, cursor, phase, result } = self;
        let AddItemsResult { success, duplicates, errors } = result;
        match phase {
            Phase::Lookup => match reply {
                Reply::Paths(existing) => Self::rest(
                    paths,
                    0,
                    AddItemsResult { success, duplicates: existing, errors },
                ),
                Reply::Failure(message) => {
                    let mut error = String::from_str("Failed to check for duplicates: ");
                    error.append(message.as_str());
                    let errors = Self::fail_all(&paths, &error);
                    let cursor = paths.len();
                    Ingestion {
                        paths,
                        cursor,
                        phase: Phase::Finished,
                        result: AddItemsResult { success, duplicates, errors },
                    }
                },
                Reply::Id(_) => Ingestion {
                    paths,
                    cursor,
                    phase,
                    result: AddItemsResult { success, duplicates, errors },
                },
            },
            Phase::Insert => match reply {
                Reply::Id(id) => {
                    let mut success = success;
                    success.push(id);
                    Self::rest(paths, cursor + 1, AddItemsResult { success, duplicates, errors })
                },
                Reply::Failure(message) => {
                    let mut errors = errors;
                    let ghost before = error_views(errors@);
                    errors.push(AddItemError { path: paths[cursor].clone(), error: message });
                    assert(error_views(errors@) =~= before.push(
                        AddItemErrorView { path: paths@[cursor as int]@, error: message@ },
                    ));
                    Self::rest(paths, cursor + 1, AddItemsResult { success, duplicates, errors })
                },
                Reply::Paths(_) => Ingestion {
                    paths,
                    cursor,
                    phase,
                    result: AddItemsResult { success, duplicates, errors },
                },
            },
            Phase::Finished => Ingestion {
                paths,
                cursor,
                phase,
                result: AddItemsResult { success, duplicates, errors },
            },
        }
    }

    /// What became of the batch: `None` until the ingestion is finished.
    pub fn into_result(self) -> (r: Option<AddItemsResult>)
        ensures
            match r {
                Some(result) => self@.phase == Phase::Finished && result@ == self@.result,
                None => self@.phase != Phase::Finished,
            },
    {
        match self.phase {
            Phase::Finished => Some(self.result),
            _ => None,
        }
    }
}

} // verus!
