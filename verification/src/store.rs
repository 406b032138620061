//! The task store: one file, read whole and replaced whole.
//!
//! The store itself touches no file. A load is handed what the host found at
//! the file's place and answers with a list. A save tells the host, step by
//! step, what to do, and is told how each step went.

use crate::codec::{
    decode_tasks, decoded, encode_tasks, encoded, read_back_failure, storable, stores,
};
use crate::task::{task_list, Task, TaskView};
use vstd::prelude::*;

verus! {

/// What the host found when it went to read the store file.
#[derive(Debug, PartialEq, Eq)]
pub enum StoreRead {
    /// No file is there.
    Missing,
    /// A file is there, and reading it as text failed.
    Unreadable,
    /// The text of the file.
    Content(String),
}

/// What a [`StoreRead`] stands for.
pub enum StoreReadView {
    /// No file.
    Missing,
    /// A file that cannot be read.
    Unreadable,
    /// A file with this text.
    Content(Seq<char>),
}

impl View for StoreRead {
    type V = StoreReadView;

    open spec fn view(&self) -> StoreReadView {
        match self {
            StoreRead::Missing => StoreReadView::Missing,
            StoreRead::Unreadable => StoreReadView::Unreadable,
            StoreRead::Content(text) => StoreReadView::Content(text@),
        }
    }
}

/// Where a save stands: what the host has to do next, or how the save ended.
#[derive(Debug, PartialEq, Eq)]
pub enum SaveStep {
    /// Make the directory of the store file, with every missing ancestor. A
    /// directory that is already there counts as made. `content` is kept for
    /// the step that follows.
    CreateDirectory { content: String },
    /// Replace the whole content of the store file by `content`.
    WriteFile { content: String },
    /// Nothing is left to do; `result` is what the save returns.
    Done { result: Result<(), String> },
}

/// What a [`SaveStep`] stands for.
pub enum SaveStepView {
    /// The directory is to be made; the text waits.
    CreateDirectory { content: Seq<char> },
    /// The text is to be written.
    WriteFile { content: Seq<char> },
    /// The save is over: it succeeded, or failed with a description.
    Done { result: Result<(), Seq<char>> },
}

/// What the outcome of a step stands for: done, or failed with a description.
pub open spec fn outcome_view(outcome: Result<(), String>) -> Result<(), Seq<char>> {
    match outcome {
        Ok(_) => Ok(()),
        Err(message) => Err(message@),
    }
}

/// What encoding a list came to, as texts: the content, or the description of
/// a failure.
pub open spec fn encoding_view(encoding: Result<String, String>) -> Result<Seq<char>, Seq<char>> {
    match encoding {
        Ok(content) => Ok(content@),
        Err(message) => Err(message@),
    }
}

impl View for SaveStep {
    type V = SaveStepView;

    open spec fn view(&self) -> SaveStepView {
        match self {
            SaveStep::CreateDirectory { content } => SaveStepView::CreateDirectory {
                content: content@,
            },
            SaveStep::WriteFile { content } => SaveStepView::WriteFile { content: content@ },
            SaveStep::Done { result } => SaveStepView::Done { result: outcome_view(*result) },
        }
    }
}

/// The list that a load answers with: the tasks that the file's text stands
/// for, and the empty list where there is no file, no readable text, or a text
/// that stands for no list of tasks.
pub open spec fn loaded(read: StoreReadView) -> Seq<TaskView> {
    match read {
        StoreReadView::Content(text) => match decoded(text) {
            Some(list) => list,
            None => Seq::empty(),
        },
        _ => Seq::empty(),
    }
}

/// The first step of a save, given what encoding the list came to: with a text,
/// the directory is asked for; with an error, the save is over and has failed
/// with that error.
pub open spec fn first_step(encoding: Result<Seq<char>, Seq<char>>) -> SaveStepView {
    match encoding {
        Ok(content) => SaveStepView::CreateDirectory { content },
        Err(message) => SaveStepView::Done { result: Err(message) },
    }
}

/// The step that follows `step` once the host reports `outcome` for it. A step
/// that failed ends the save with the failure's description. The file is
/// written only after the directory was made, and with the text that the save
/// began with. The save succeeds only after the file was written. A save that
/// is over stays as it is.
pub open spec fn next_step(step: SaveStepView, outcome: Result<(), Seq<char>>) -> SaveStepView {
    match step {
        SaveStepView::CreateDirectory { content } => match outcome {
            Ok(_) => SaveStepView::WriteFile { content },
            Err(message) => SaveStepView::Done { result: Err(message) },
        },
        SaveStepView::WriteFile { content } => match outcome {
            Ok(_) => SaveStepView::Done { result: Ok(()) },
            Err(message) => SaveStepView::Done { result: Err(message) },
        },
        SaveStepView::Done { result } => step,
    }
}

/// Where a save stands after the host has reported `outcomes`, one for each
/// step in turn, starting at `step`.
pub open spec fn run(step: SaveStepView, outcomes: Seq<Result<(), Seq<char>>>) -> SaveStepView
    decreases outcomes.len(),
{
    if outcomes.len() == 0 {
        step
    } else {
        run(next_step(step, outcomes[0]), outcomes.skip(1))
    }
}

/// Two loads that find the same thing at the store file answer with the same
/// list.
pub proof fn lemma_load_repeatable(first: StoreRead, second: StoreRead)
    requires
        first@ == second@,
    ensures
        loaded(first@) == loaded(second@),
{
}

/// A load that finds no file answers with the empty list.
pub proof fn lemma_load_missing()
    ensures
        loaded(StoreReadView::Missing) == Seq::<TaskView>::empty(),
{
}

/// A load that finds a file it cannot read, or a text that stands for no list
/// of tasks, answers with the empty list.
pub proof fn lemma_load_corrupt(text: Seq<char>)
    requires
        decoded(text) is None,
    ensures
        loaded(StoreReadView::Unreadable) == Seq::<TaskView>::empty(),
        loaded(StoreReadView::Content(text)) == Seq::<TaskView>::empty(),
{
}

/// A load that finds the text of a save answers with the list that was saved:
/// the same tasks in the same order.
pub proof fn lemma_load_after_save(list: Seq<TaskView>, content: Seq<char>)
    requires
        stores(content, list),
    ensures
        loaded(StoreReadView::Content(content)) == list,
{
}

/// Of two saves, one after the other, the second decides what is loaded: the
/// text it writes is the whole content of the file and stands for its own list
/// alone, with nothing left of the first.
pub proof fn lemma_second_save_replaces(
    first: Seq<TaskView>,
    first_content: Seq<char>,
    second: Seq<TaskView>,
    second_content: Seq<char>,
)
    requires
        stores(first_content, first),
        stores(second_content, second),
    ensures
        run(first_step(Ok(second_content)), seq![Ok(())]) == (SaveStepView::WriteFile {
            content: second_content,
        }),
        loaded(StoreReadView::Content(second_content)) == second,
{
    let outcomes: Seq<Result<(), Seq<char>>> = seq![Ok(())];
    let start = first_step(Ok(second_content));
    assert(outcomes.skip(1).len() == 0);
    assert(run(start, outcomes) == run(next_step(start, outcomes[0]), outcomes.skip(1)));
}

/// A save that is over stays over, whatever is reported to it.
pub proof fn lemma_done_is_final(
    result: Result<(), Seq<char>>,
    outcomes: Seq<Result<(), Seq<char>>>,
)
    ensures
        run(SaveStepView::Done { result }, outcomes) == (SaveStepView::Done { result }),
    decreases outcomes.len(),
{
    if outcomes.len() > 0 {
        lemma_done_is_final(result, outcomes.skip(1));
    }
}

/// A save is over once two outcomes have been reported. It has succeeded only
/// if the list was encoded, the directory was then made and the file was then
/// written; otherwise it has failed with the description of the first failure.
pub proof fn lemma_save_all_or_nothing(
    encoding: Result<Seq<char>, Seq<char>>,
    outcomes: Seq<Result<(), Seq<char>>>,
)
    requires
        outcomes.len() >= 2,
    ensures
        run(first_step(encoding), outcomes) == (SaveStepView::Done {
            result: match encoding {
                Err(message) => Err(message),
                Ok(_) => match outcomes[0] {
                    Err(message) => Err(message),
                    Ok(_) => match outcomes[1] {
                        Err(message) => Err(message),
                        Ok(_) => Ok(()),
                    },
                },
            },
        }),
{
    let start = first_step(encoding);
    let second = next_step(start, outcomes[0]);
    let third = next_step(second, outcomes.skip(1)[0]);
    assert(run(start, outcomes) == run(second, outcomes.skip(1)));
    assert(run(second, outcomes.skip(1)) == run(third, outcomes.skip(1).skip(1)));
    assert(third is Done);
    lemma_done_is_final(third->Done_result, outcomes.skip(1).skip(1));
}

/// A save of an encoded list succeeds whenever the host makes the directory,
/// be it there already or not, and then writes the file; and the text that it
/// asks to be written is the encoded list.
pub proof fn lemma_save_succeeds(content: Seq<char>)
    ensures
        run(first_step(Ok(content)), seq![Ok(())]) == (SaveStepView::WriteFile { content }),
        run(first_step(Ok(content)), seq![Ok(()), Ok(())]) == (SaveStepView::Done {
            result: Ok(()),
        }),
{
    let one: Seq<Result<(), Seq<char>>> = seq![Ok(())];
    let start = first_step(Ok(content));
    assert(one.skip(1).len() == 0);
    assert(run(start, one) == run(next_step(start, one[0]), one.skip(1)));
    lemma_save_all_or_nothing(Ok(content), seq![Ok(()), Ok(())]);
}

/// The name of the store file inside the application's data directory.
pub fn file_name() -> (name: &'static str)
    ensures
        name@ == "tasks.json"@,
{
    "tasks.json"
}

/// Loads the task list from what the host found at the store file. It never
/// fails: whatever is wrong with the file, the answer is the empty list.
pub fn load_tasks(read: StoreRead) -> (tasks: Vec<Task>)
    ensures
        task_list(tasks@) == loaded(read@),
{
    match read {
        StoreRead::Content(text) => match decode_tasks(text.as_str()) {
            Some(tasks) => tasks,
            None => {
                let tasks: Vec<Task> = Vec::new();
                assert(task_list(tasks@) =~= Seq::<TaskView>::empty());
                tasks
            },
        },
        _ => {
            let tasks: Vec<Task> = Vec::new();
            assert(task_list(tasks@) =~= Seq::<TaskView>::empty());
            tasks
        },
    }
}

/// Begins a save from what encoding the list came to.
pub fn begin_save(encoding: Result<String, String>) -> (step: SaveStep)
    ensures
        step@ == first_step(encoding_view(encoding)),
{
    match encoding {
        Ok(content) => SaveStep::CreateDirectory { content },
        Err(message) => SaveStep::Done { result: Err(message) },
    }
}

/// Begins to save a list of tasks: encodes it and asks for the directory, with
/// the whole text that the file is to hold, a text that loads as the list. It
/// gets that far on exactly the lists that can be stored. On any other list
/// the save is over at once and has failed: with the error that the text
/// does not read back, or, where the printer failed, with the printer's
/// description.
pub fn save_tasks(tasks: &Vec<Task>) -> (step: SaveStep)
    ensures
        step@ is CreateDirectory <==> storable(task_list(tasks@)),
        match step@ {
            SaveStepView::CreateDirectory { content } => stores(content, task_list(tasks@))
                && loaded(StoreReadView::Content(content)) == task_list(tasks@),
            SaveStepView::WriteFile { .. } => false,
            SaveStepView::Done { result } => result matches Err(message) && (encoded(
                task_list(tasks@),
            ) is Some ==> message == read_back_failure()),
        },
{
    let step = begin_save(encode_tasks(tasks));
    proof {
        if let SaveStepView::CreateDirectory { content } = step@ {
            lemma_load_after_save(task_list(tasks@), content);
        }
    }
    step
}

impl SaveStep {
    /// The step that follows this one, given how the host fared with it.
    pub fn advance(self, outcome: Result<(), String>) -> (next: SaveStep)
        ensures
            next@ == next_step(self@, outcome_view(outcome)),
    {
        match self {
            SaveStep::CreateDirectory { content } => match outcome {
                Ok(_) => SaveStep::WriteFile { content },
                Err(message) => SaveStep::Done { result: Err(message) },
            },
            SaveStep::WriteFile { content } => match outcome {
                Ok(_) => SaveStep::Done { result: Ok(()) },
                Err(message) => SaveStep::Done { result: Err(message) },
            },
            SaveStep::Done { result } => SaveStep::Done { result },
        }
    }
}

} // verus!
