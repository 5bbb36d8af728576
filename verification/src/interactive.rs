//! Interactive commands over a web socket.

use crate::json::{get_member, get_natural, get_text, json_of, member, parsed, read, JsonView};
use crate::model::{empty_list, one_of, Model};
use crate::text::{cat3, own, same_text, signed_decimal, signed_number};
use crate::types::{
    bindings_of, record_mounts_to_runconfig_bindings, GuestCommand, GuestCommandView, Job, JobView,
    RunConfig, RunConfigView,
};
use vstd::prelude::*;

verus! {

/// What an interactive command is asked with.
#[derive(Debug, PartialEq, Eq)]
pub struct InteractiveQuery {
    /// Program to run.
    pub cmd: Option<String>,
    /// Columns of the terminal.
    pub cols: Option<u16>,
    /// Rows of the terminal.
    pub rows: Option<u16>,
}

/// Mathematical model of a [`InteractiveQuery`].
pub struct InteractiveQueryView {
    pub cmd: Option<Seq<char>>,
    pub cols: Option<u16>,
    pub rows: Option<u16>,
}

impl Model for InteractiveQuery {
    type V = InteractiveQueryView;

    open spec fn model(&self) -> InteractiveQueryView {
        InteractiveQueryView {
            cmd: self.cmd.model(),
            cols: self.cols.model(),
            rows: self.rows.model(),
        }
    }

    fn dup(&self) -> (copy: Self) {
        InteractiveQuery {
            cmd: self.cmd.dup(),
            cols: self.cols.dup(),
            rows: self.rows.dup(),
        }
    }
}

/// What is handed to an interactive command.
#[derive(Debug, PartialEq, Eq)]
pub enum InteractiveInput {
    /// Bytes for its standard input.
    Stdin(Vec<u8>),
    /// The size of its terminal.
    Resize { cols: u16, rows: u16 },
    /// There is no more input.
    Eof,
}

/// Mathematical model of a [`InteractiveInput`].
pub enum InteractiveInputView {
    Stdin(Seq<u8>),
    Resize { cols: u16, rows: u16 },
    Eof,
}

impl Model for InteractiveInput {
    type V = InteractiveInputView;

    open spec fn model(&self) -> InteractiveInputView {
        match self {
            InteractiveInput::Stdin(value) => InteractiveInputView::Stdin(value.model()),
            InteractiveInput::Resize { cols, rows } => InteractiveInputView::Resize { cols: cols.model(), rows: rows.model() },
            InteractiveInput::Eof => InteractiveInputView::Eof,
        }
    }

    fn dup(&self) -> (copy: Self) {
        match self {
            InteractiveInput::Stdin(value) => InteractiveInput::Stdin(value.dup()),
            InteractiveInput::Resize { cols, rows } => InteractiveInput::Resize { cols: cols.dup(), rows: rows.dup() },
            InteractiveInput::Eof => InteractiveInput::Eof,
        }
    }
}

/// A message of the web socket.
#[derive(Debug, PartialEq, Eq)]
pub enum Frame {
    Binary(Vec<u8>),
    Text(String),
    Close,
    /// Any other message.
    Other,
}

/// Mathematical model of a [`Frame`].
pub enum FrameView {
    Binary(Seq<u8>),
    Text(Seq<char>),
    Close,
    Other,
}

impl Model for Frame {
    type V = FrameView;

    open spec fn model(&self) -> FrameView {
        match self {
            Frame::Binary(value) => FrameView::Binary(value.model()),
            Frame::Text(value) => FrameView::Text(value.model()),
            Frame::Close => FrameView::Close,
            Frame::Other => FrameView::Other,
        }
    }

    fn dup(&self) -> (copy: Self) {
        match self {
            Frame::Binary(value) => Frame::Binary(value.dup()),
            Frame::Text(value) => Frame::Text(value.dup()),
            Frame::Close => Frame::Close,
            Frame::Other => Frame::Other,
        }
    }
}

/// What a message of the web socket leads to.
#[derive(Debug, PartialEq, Eq)]
pub enum FrameAction {
    /// Hand this to the command.
    Send(InteractiveInput),
    /// Hand this to the command and read no more messages.
    SendLast(InteractiveInput),
    /// Nothing.
    Ignore,
}

/// Mathematical model of a [`FrameAction`].
pub enum FrameActionView {
    Send(InteractiveInputView),
    SendLast(InteractiveInputView),
    Ignore,
}

impl Model for FrameAction {
    type V = FrameActionView;

    open spec fn model(&self) -> FrameActionView {
        match self {
            FrameAction::Send(value) => FrameActionView::Send(value.model()),
            FrameAction::SendLast(value) => FrameActionView::SendLast(value.model()),
            FrameAction::Ignore => FrameActionView::Ignore,
        }
    }

    fn dup(&self) -> (copy: Self) {
        match self {
            FrameAction::Send(value) => FrameAction::Send(value.dup()),
            FrameAction::SendLast(value) => FrameAction::SendLast(value.dup()),
            FrameAction::Ignore => FrameAction::Ignore,
        }
    }
}

/// The size of the terminal before it is changed.
pub open spec fn initial_size(query: InteractiveQueryView) -> InteractiveInputView {
    InteractiveInputView::Resize {
        cols: match query.cols {
            Some(cols) => cols,
            None => 80,
        },
        rows: match query.rows {
            Some(rows) => rows,
            None => 24,
        },
    }
}

/// Tells the size of the terminal before it is changed.
pub fn first_input(query: &InteractiveQuery) -> (input: InteractiveInput)
    ensures
        input.model() == initial_size(query.model()),
{
    InteractiveInput::Resize {
        cols: match query.cols {
            Some(cols) => cols,
            None => 80,
        },
        rows: match query.rows {
            Some(rows) => rows,
            None => 24,
        },
    }
}

/// The program of an interactive command.
pub open spec fn interactive_words(query: InteractiveQueryView) -> Seq<Seq<char>> {
    seq![
        match query.cmd {
            Some(cmd) => cmd,
            None => "/bin/sh"@,
        },
    ]
}

/// The job of an interactive command in a machine.
pub open spec fn interactive_job(
    query: InteractiveQueryView,
    image: Option<Seq<char>>,
    mounts: Seq<(Seq<char>, Seq<char>, bool)>,
    id: Seq<char>,
) -> JobView {
    match image {
        Some(image) => JobView::Container(
            RunConfigView {
                image,
                command: interactive_words(query),
                env: Seq::empty(),
                workdir: None,
                user: None,
                mounts: bindings_of(mounts),
                timeout: None,
                tty: true,
                persistent_overlay: Some(id),
            },
        ),
        None => JobView::Guest(
            GuestCommandView {
                command: interactive_words(query),
                env: Seq::empty(),
                workdir: None,
                timeout: None,
                stdin: None,
                tty: true,
            },
        ),
    }
}

/// Makes the job of an interactive command in a machine.
pub fn make_interactive_job(
    query: &InteractiveQuery,
    image: &Option<String>,
    mounts: &Vec<(String, String, bool)>,
    id: &str,
) -> (job: Job)
    ensures
        job.model() == interactive_job(query.model(), image.model(), mounts.model(), id@),
{
    let program: String = match &query.cmd {
        Some(cmd) => cmd.dup(),
        None => own("/bin/sh"),
    };
    let command: Vec<String> = one_of(program);
    match image {
        Some(image) => Job::Container(
            RunConfig {
                image: image.dup(),
                command,
                env: empty_list(),
                workdir: None,
                user: None,
                mounts: record_mounts_to_runconfig_bindings(mounts),
                timeout: None,
                tty: true,
                persistent_overlay: Some(own(id)),
            },
        ),
        None => Job::Guest(
            GuestCommand {
                command,
                env: empty_list(),
                workdir: None,
                timeout: None,
                stdin: None,
                tty: true,
            },
        ),
    }
}

/// A number in the range of 16 bits, as its lower bits.
pub open spec fn low_bits(number: u64) -> u16 {
    (number % 65536) as u16
}

/// The size that a control message gives for a side of the terminal.
pub open spec fn side(value: JsonView, default_size: u64) -> u16 {
    match value {
        JsonView::Integer(number) => if 0 <= number <= u64::MAX {
            low_bits(number as u64)
        } else {
            low_bits(default_size)
        },
        _ => low_bits(default_size),
    }
}

fn side_of(value: &serde_json::Value, default_size: u64) -> (size: u16)
    ensures
        size == side(json_of(*value), default_size),
{
    let number: u64 = match get_natural(value) {
        Some(number) => number,
        None => default_size,
    };
    let low: u64 = number % 65536;
    low as u16
}

/// What a text message leads to. `control` is the JSON value that the text
/// stands for, if it stands for one: a control message sets the size of the
/// terminal or holds input; any other text is input itself.
pub open spec fn text_action(control: Option<JsonView>, content: Seq<char>) -> FrameActionView {
    match control {
        None => FrameActionView::Send(
            InteractiveInputView::Stdin(vstd::utf8::encode_utf8(content)),
        ),
        Some(value) => if member(value, "type"@) == JsonView::Text("resize"@) {
            FrameActionView::Send(
                InteractiveInputView::Resize {
                    cols: side(member(value, "cols"@), 80),
                    rows: side(member(value, "rows"@), 24),
                },
            )
        } else if member(value, "type"@) == JsonView::Text("stdin"@) {
            match member(value, "data"@) {
                JsonView::Text(data) => FrameActionView::Send(
                    InteractiveInputView::Stdin(vstd::utf8::encode_utf8(data)),
                ),
                _ => FrameActionView::Ignore,
            }
        } else {
            FrameActionView::Send(InteractiveInputView::Stdin(vstd::utf8::encode_utf8(content)))
        },
    }
}

/// What a message of the web socket leads to.
pub open spec fn frame_action(frame: FrameView) -> FrameActionView {
    match frame {
        FrameView::Binary(bytes) => FrameActionView::Send(InteractiveInputView::Stdin(bytes)),
        FrameView::Text(content) => text_action(parsed(content), content),
        FrameView::Close => FrameActionView::SendLast(InteractiveInputView::Eof),
        FrameView::Other => FrameActionView::Ignore,
    }
}

fn stdin_of(content: &str) -> (input: InteractiveInput)
    ensures
        input.model() == InteractiveInputView::Stdin(vstd::utf8::encode_utf8(content@)),
{
    let bytes: Vec<u8> = content.as_bytes_vec();
    assert(bytes.model() =~= bytes@);
    InteractiveInput::Stdin(bytes)
}

/// Decides what a text message leads to, once it was read as JSON.
pub fn decode_control(control: Option<serde_json::Value>, content: &str) -> (action: FrameAction)
    ensures
        action.model() == text_action(
            match control {
                Some(value) => Some(json_of(value)),
                None => None,
            },
            content@,
        ),
{
    let value = match &control {
        None => {
            return FrameAction::Send(stdin_of(content));
        },
        Some(value) => value,
    };
    let kind: String = match get_text(get_member(value, "type")) {
        None => {
            return FrameAction::Send(stdin_of(content));
        },
        Some(kind) => kind,
    };
    if same_text(kind.as_str(), "resize") {
        return FrameAction::Send(
            InteractiveInput::Resize {
                cols: side_of(get_member(value, "cols"), 80),
                rows: side_of(get_member(value, "rows"), 24),
            },
        );
    }
    if same_text(kind.as_str(), "stdin") {
        return match get_text(get_member(value, "data")) {
            Some(data) => FrameAction::Send(stdin_of(data.as_str())),
            None => FrameAction::Ignore,
        };
    }
    FrameAction::Send(stdin_of(content))
}

/// Decides what a message of the web socket leads to.
pub fn decode_frame(frame: Frame) -> (action: FrameAction)
    ensures
        action.model() == frame_action(frame.model()),
{
    match frame {
        Frame::Binary(bytes) => FrameAction::Send(InteractiveInput::Stdin(bytes)),
        Frame::Text(content) => {
            let control = read(content.as_str());
            decode_control(control, content.as_str())
        },
        Frame::Close => FrameAction::SendLast(InteractiveInput::Eof),
        Frame::Other => FrameAction::Ignore,
    }
}

/// What is known while an interactive command is prepared.
#[derive(Debug, PartialEq, Eq)]
pub struct InteractiveProgress {
    /// Whether the guest's agent answered.
    pub connected: Option<bool>,
    /// Whether the image is in the guest: nothing where that could not be told.
    pub present: Option<Option<bool>>,
    /// Whether the image could be pulled.
    pub pulled: Option<bool>,
    /// The exit code of the command: nothing where it could not be run.
    pub ended: Option<Option<i32>>,
}

/// Mathematical model of a [`InteractiveProgress`].
pub struct InteractiveProgressView {
    pub connected: Option<bool>,
    pub present: Option<Option<bool>>,
    pub pulled: Option<bool>,
    pub ended: Option<Option<i32>>,
}

impl Model for InteractiveProgress {
    type V = InteractiveProgressView;

    open spec fn model(&self) -> InteractiveProgressView {
        InteractiveProgressView {
            connected: self.connected.model(),
            present: self.present.model(),
            pulled: self.pulled.model(),
            ended: self.ended.model(),
        }
    }

    fn dup(&self) -> (copy: Self) {
        InteractiveProgress {
            connected: self.connected.dup(),
            present: self.present.dup(),
            pulled: self.pulled.dup(),
            ended: self.ended.dup(),
        }
    }
}

/// What is done next for an interactive command.
#[derive(Debug, PartialEq, Eq)]
pub enum InteractiveStep {
    /// Connect to the guest's agent.
    Connect,
    /// See whether the image is in the guest.
    Query(String),
    /// Pull the image.
    Pull(String),
    /// Run the command.
    Run(Job),
    /// The command has ended with this code.
    Done(i32),
}

/// Mathematical model of a [`InteractiveStep`].
pub enum InteractiveStepView {
    Connect,
    Query(Seq<char>),
    Pull(Seq<char>),
    Run(JobView),
    Done(i32),
}

impl Model for InteractiveStep {
    type V = InteractiveStepView;

    open spec fn model(&self) -> InteractiveStepView {
        match self {
            InteractiveStep::Connect => InteractiveStepView::Connect,
            InteractiveStep::Query(value) => InteractiveStepView::Query(value.model()),
            InteractiveStep::Pull(value) => InteractiveStepView::Pull(value.model()),
            InteractiveStep::Run(value) => InteractiveStepView::Run(value.model()),
            InteractiveStep::Done(value) => InteractiveStepView::Done(value.model()),
        }
    }

    fn dup(&self) -> (copy: Self) {
        match self {
            InteractiveStep::Connect => InteractiveStep::Connect,
            InteractiveStep::Query(value) => InteractiveStep::Query(value.dup()),
            InteractiveStep::Pull(value) => InteractiveStep::Pull(value.dup()),
            InteractiveStep::Run(value) => InteractiveStep::Run(value.dup()),
            InteractiveStep::Done(value) => InteractiveStep::Done(value.dup()),
        }
    }
}

/// What is done to run an interactive command.
pub open spec fn interactive_run_step(job: JobView, progress: InteractiveProgressView) -> InteractiveStepView {
    match progress.ended {
        None => InteractiveStepView::Run(job),
        Some(Some(code)) => InteractiveStepView::Done(code),
        Some(None) => InteractiveStepView::Done(-1i32),
    }
}

/// What is done next for an interactive command in a machine.
pub open spec fn interactive_step(
    query: InteractiveQueryView,
    image: Option<Seq<char>>,
    mounts: Seq<(Seq<char>, Seq<char>, bool)>,
    id: Seq<char>,
    progress: InteractiveProgressView,
) -> InteractiveStepView {
    let job = interactive_job(query, image, mounts, id);
    if progress.connected is None {
        InteractiveStepView::Connect
    } else if progress.connected == Some(false) {
        InteractiveStepView::Done(-1i32)
    } else {
        match image {
            None => interactive_run_step(job, progress),
            Some(image) => match progress.present {
                None => InteractiveStepView::Query(image),
                Some(None) => InteractiveStepView::Done(-1i32),
                Some(Some(true)) => interactive_run_step(job, progress),
                Some(Some(false)) => match progress.pulled {
                    None => InteractiveStepView::Pull(image),
                    Some(false) => InteractiveStepView::Done(-1i32),
                    Some(true) => interactive_run_step(job, progress),
                },
            },
        }
    }
}

fn next_run_step(
    query: &InteractiveQuery,
    image: &Option<String>,
    mounts: &Vec<(String, String, bool)>,
    id: &str,
    progress: &InteractiveProgress,
) -> (step: InteractiveStep)
    ensures
        step.model() == interactive_run_step(
            interactive_job(query.model(), image.model(), mounts.model(), id@),
            progress.model(),
        ),
{
    match progress.ended {
        None => InteractiveStep::Run(make_interactive_job(query, image, mounts, id)),
        Some(Some(code)) => InteractiveStep::Done(code),
        Some(None) => InteractiveStep::Done(-1),
    }
}

/// Decides what is done next for an interactive command in a machine.
pub fn next_interactive_step(
    query: &InteractiveQuery,
    image: &Option<String>,
    mounts: &Vec<(String, String, bool)>,
    id: &str,
    progress: &InteractiveProgress,
) -> (step: InteractiveStep)
    ensures
        step.model() == interactive_step(
            query.model(),
            image.model(),
            mounts.model(),
            id@,
            progress.model(),
        ),
{
    match progress.connected {
        None => {
            return InteractiveStep::Connect;
        },
        Some(false) => {
            return InteractiveStep::Done(-1);
        },
        Some(true) => {},
    }
    if let Some(reference) = image {
        match progress.present {
            None => {
                return InteractiveStep::Query(reference.dup());
            },
            Some(None) => {
                return InteractiveStep::Done(-1);
            },
            Some(Some(true)) => {},
            Some(Some(false)) => match progress.pulled {
                None => {
                    return InteractiveStep::Pull(reference.dup());
                },
                Some(false) => {
                    return InteractiveStep::Done(-1);
                },
                Some(true) => {},
            },
        }
    }
    next_run_step(query, image, mounts, id, progress)
}

/// Makes the message that tells the exit code of an interactive command.
pub fn exit_message(code: i32) -> (message: String)
    ensures
        message@ == "{\"type\":\"exit\",\"code\":"@ + signed_decimal(code as int) + "}"@,
{
    cat3("{\"type\":\"exit\",\"code\":", signed_number(code).as_str(), "}")
}

/// Law: an interactive command is the program that was asked for, or else the shell, on a
/// terminal, in the image of the machine with its mounts and its kept files, or in the guest
/// where the machine has no image.
pub proof fn law_interactive_runs_what_was_asked(
    query: InteractiveQueryView,
    image: Option<Seq<char>>,
    mounts: Seq<(Seq<char>, Seq<char>, bool)>,
    id: Seq<char>,
    progress: InteractiveProgressView,
)
    ensures
        ({
            let step = interactive_step(query, image, mounts, id, progress);
            let program = match query.cmd {
                Some(cmd) => cmd,
                None => "/bin/sh"@,
            };
            &&& step is Connect ==> progress.connected is None
            &&& step matches InteractiveStepView::Query(asked) ==> image == Some(asked)
                && progress.present is None && progress.connected == Some(true)
            &&& step matches InteractiveStepView::Pull(asked) ==> image == Some(asked)
                && progress.pulled is None && progress.present == Some(Some(false))
            &&& step matches InteractiveStepView::Run(job) ==> {
                &&& progress.connected == Some(true) && progress.ended is None
                &&& image is Some ==> progress.present == Some(Some(true)) || (progress.present
                    == Some(Some(false)) && progress.pulled == Some(true))
                &&& job is Container <==> image is Some
                &&& job matches JobView::Container(config) ==> image == Some(config.image)
                    && config.command.len() == 1 && config.command[0] == program && config.tty
                    && config.persistent_overlay == Some(id) && config.timeout is None
                    && config.workdir is None && config.user is None && config.env.len() == 0
                    && config.mounts.len() == mounts.len() && forall|i: int|
                    0 <= i < mounts.len() ==> #[trigger] config.mounts[i] == (
                        i as usize,
                        mounts[i].1,
                        mounts[i].2,
                    )
                &&& job matches JobView::Guest(command) ==> command.command.len() == 1
                    && command.command[0] == program && command.tty && command.timeout is None
                    && command.workdir is None && command.env.len() == 0 && command.stdin is None
            }
            &&& step matches InteractiveStepView::Done(code) ==> progress.ended == Some(Some(code))
                || (code == -1 && (progress.connected == Some(false) || progress.present == Some(
                None::<bool>,
            ) || progress.pulled == Some(false) || progress.ended == Some(None::<i32>)))
        }),
{
}

/// Law: the terminal first has the size that was asked for, each side by itself, and 80 columns
/// and 24 rows where nothing was.
pub proof fn law_first_size_of_the_terminal(query: InteractiveQueryView)
    ensures
        initial_size(query) matches InteractiveInputView::Resize { cols, rows } && (query.cols
            is Some ==> cols == query.cols->0) && (query.cols is None ==> cols == 80) && (query.rows
            is Some ==> rows == query.rows->0) && (query.rows is None ==> rows == 24),
{
}

/// Law: bytes go to the command as they are, and so does text that is no control message. A
/// control message gives input or a size for the terminal. A closed socket ends the input, and
/// any other message leads to nothing.
pub proof fn law_messages_reach_the_command(
    bytes: Seq<u8>,
    content: Seq<char>,
    members: Map<Seq<char>, JsonView>,
    data: Seq<char>,
    cols: u16,
    rows: u16,
)
    ensures
        frame_action(FrameView::Binary(bytes)) == FrameActionView::Send(
            InteractiveInputView::Stdin(bytes),
        ),
        parsed(content) is None ==> frame_action(FrameView::Text(content)) == FrameActionView::Send(
            InteractiveInputView::Stdin(vstd::utf8::encode_utf8(content)),
        ),
        parsed(content) == Some(JsonView::Object(members)) && !members.dom().contains("type"@)
            ==> frame_action(FrameView::Text(content)) == FrameActionView::Send(
            InteractiveInputView::Stdin(vstd::utf8::encode_utf8(content)),
        ),
        parsed(content) == Some(
            JsonView::Object(
                members.insert("type"@, JsonView::Text("stdin"@)).insert(
                    "data"@,
                    JsonView::Text(data),
                ),
            ),
        ) ==> frame_action(FrameView::Text(content)) == FrameActionView::Send(
            InteractiveInputView::Stdin(vstd::utf8::encode_utf8(data)),
        ),
        parsed(content) == Some(
            JsonView::Object(
                members.insert("type"@, JsonView::Text("resize"@)).insert(
                    "cols"@,
                    JsonView::Integer(cols as int),
                ).insert("rows"@, JsonView::Integer(rows as int)),
            ),
        ) ==> frame_action(FrameView::Text(content)) == FrameActionView::Send(
            InteractiveInputView::Resize { cols, rows },
        ),
        frame_action(FrameView::Close) == FrameActionView::SendLast(InteractiveInputView::Eof),
        frame_action(FrameView::Other) == FrameActionView::Ignore,
{
    reveal_strlit("type");
    reveal_strlit("data");
    reveal_strlit("cols");
    reveal_strlit("rows");
    reveal_strlit("stdin");
    reveal_strlit("resize");
    assert("type"@[0] != "data"@[0] && "type"@[0] != "cols"@[0] && "type"@[0] != "rows"@[0]);
    assert("cols"@[0] != "rows"@[0]);
    assert("stdin"@[0] != "resize"@[0]);
}

/// Law: a side of the terminal below the largest size is taken as the message gives it, a larger one by
/// its rest, and one that the message leaves out is the default size.
pub proof fn law_sides_of_the_terminal(number: u64, default_size: u64)
    ensures
        number <= u16::MAX ==> side(JsonView::Integer(number as int), default_size) == number,
        default_size <= u16::MAX ==> side(JsonView::Null, default_size) == default_size,
        number <= u64::MAX - 65_536 ==> side(
            JsonView::Integer((number + 65_536) as int),
            default_size,
        ) == side(JsonView::Integer(number as int), default_size),
{
}

} // verus!
