//! Running one command: what to make of a failed start, of each line the
//! command writes, and of the way it ends.
//!
//! Starting the process, reading its two streams side by side and handing the
//! events to a listener is the caller's part. Each stream gets a drain of its
//! own, fed by whoever reads that stream; when both streams are at their end
//! and the process has exited, the drains and the exit report give the result.

use crate::errors::OpenSpecCommandError;
use crate::process::{decode_lossy, lossy_text, ExitReport, SpawnFailure};
use crate::text::{
    copy_range, from_chars, join, join_chars, lemma_position_bounds, lemma_position_skips,
    lemma_split_of_join, position, rows, same_text, split_on, texts, to_chars,
};
use vstd::prelude::*;
use vstd::string::StringExecFns;

verus! {

/// Which of the two output streams a line came from.
#[derive(Debug, Clone, Copy, PartialEq, Eq, Structural)]
pub enum StreamTag {
    Stdout,
    Stderr,
}

/// One line of output, as it is handed to the listener.
#[derive(Debug)]
pub struct CliOutputEvent {
    /// The label of the action that produced the line.
    pub operation: String,
    /// `stdout` or `stderr`.
    pub stream: String,
    /// The line, without its line ending.
    pub line: String,
}

/// What a command that ended well left behind.
#[derive(Debug)]
pub struct CommandRunOutput {
    pub status: i32,
    pub stdout: String,
    pub stderr: String,
}

/// The name under which a stream appears in events.
pub open spec fn stream_label(tag: StreamTag) -> Seq<char> {
    match tag {
        StreamTag::Stdout => "stdout"@,
        StreamTag::Stderr => "stderr"@,
    }
}

/// The line that a chunk of text holds: the text up to its first line feed,
/// without a carriage return directly before that line feed; the whole text
/// where it holds no line feed.
pub open spec fn line_of(text: Seq<char>) -> Seq<char> {
    let k = position(text, '\n');
    if 0 <= k < text.len() {
        let head = text.take(k);
        if head.len() > 0 && head.last() == '\r' {
            head.drop_last()
        } else {
            head
        }
    } else {
        text
    }
}

/// The lines written one below the other.
pub open spec fn lines_text(lines: Seq<Seq<char>>) -> Seq<char> {
    join(lines, seq!['\n'])
}

/// The status recorded for an ended command: its exit code, or -1 where the
/// operating system reported none.
pub open spec fn recorded_status(exit: ExitReport) -> int {
    match exit {
        ExitReport::Exited(code) => code as int,
        ExitReport::NoCode { .. } => -1,
    }
}

/// Whether an ended command counts as successful: exit code 0, or, without an
/// exit code, the success flag.
pub open spec fn ended_well(exit: ExitReport) -> bool {
    match exit {
        ExitReport::Exited(code) => code == 0,
        ExitReport::NoCode { success } => success,
    }
}

/// The failure that a refused start amounts to. A missing executable means
/// that the tool, or else the package manager, is unavailable.
pub open spec fn spawn_error(command: Seq<char>, failure: SpawnFailure) -> OpenSpecCommandError {
    match failure {
        SpawnFailure::NotFound => if command == "openspec"@ {
            OpenSpecCommandError::CliUnavailable
        } else {
            OpenSpecCommandError::PackageManagerUnavailable
        },
        SpawnFailure::Other(detail) => OpenSpecCommandError::Io(detail),
    }
}

/// No line of `lines` holds a line feed.
pub open spec fn single_lines(lines: Seq<Seq<char>>) -> bool {
    forall|i: int| 0 <= i < lines.len() ==> !(#[trigger] lines[i]).contains('\n')
}

/// A line, as `line_of` cuts it, holds no line feed.
pub proof fn lemma_line_is_single(text: Seq<char>)
    ensures
        !line_of(text).contains('\n'),
{
    lemma_position_bounds(text, '\n');
    let k = position(text, '\n');
    let line = line_of(text);
    assert forall|j: int| 0 <= j < line.len() implies line[j] != '\n' by {
        assert(line[j] == text[j]);
    }
}

/// Classifies a command that could not be started.
pub fn classify_spawn_failure(command: &str, failure: SpawnFailure) -> (error:
    OpenSpecCommandError)
    ensures
        error == spawn_error(command@, failure),
{
    match failure {
        SpawnFailure::NotFound => {
            if same_text(command, "openspec") {
                OpenSpecCommandError::CliUnavailable
            } else {
                OpenSpecCommandError::PackageManagerUnavailable
            }
        },
        SpawnFailure::Other(detail) => OpenSpecCommandError::Io(detail),
    }
}

/// The name under which a stream appears in events.
pub fn stream_name(tag: StreamTag) -> (name: &'static str)
    ensures
        name@ == stream_label(tag),
{
    match tag {
        StreamTag::Stdout => "stdout",
        StreamTag::Stderr => "stderr",
    }
}

/// Cuts the line out of a chunk of decoded text.
pub fn line_text(text: &str) -> (line: String)
    ensures
        line@ == line_of(text@),
{
    let chars = to_chars(text);
    let n = chars.len();
    let mut k: usize = 0;
    while k < n && chars[k] != '\n'
        invariant
            k <= n == chars.len(),
            forall|j: int| 0 <= j < k ==> #[trigger] chars@[j] != '\n',
        decreases n - k,
    {
        k += 1;
    }
    proof {
        lemma_position_skips(chars@, '\n', k as int);
        if k < n {
            assert(chars@.skip(k as int).first() == '\n');
        } else {
            assert(chars@.skip(k as int).len() == 0);
        }
        assert(position(chars@, '\n') == k);
    }
    if k == n {
        return from_chars(&chars);
    }
    let end = if k > 0 && chars[k - 1] == '\r' {
        k - 1
    } else {
        k
    };
    let line = copy_range(&chars, 0, end);
    proof {
        let head = chars@.take(k as int);
        assert(chars@.subrange(0, k as int) =~= head);
        if k > 0 {
            assert(head.last() == chars@[k - 1]);
            assert(chars@.subrange(0, k - 1) =~= head.drop_last());
        }
    }
    from_chars(&line)
}

/// Collects the lines of one output stream of one command, in the order in
/// which they arrive, and turns each into the event that reports it.
pub struct StreamDrain {
    operation: String,
    stream: StreamTag,
    lines: Vec<String>,
}

impl StreamDrain {
    #[verifier::type_invariant]
    spec fn holds_single_lines(self) -> bool {
        single_lines(texts(self.lines@))
    }

    /// The label of the action whose output is collected.
    pub closed spec fn operation(self) -> Seq<char> {
        self.operation@
    }

    /// The stream that is collected.
    pub closed spec fn stream(self) -> StreamTag {
        self.stream
    }

    /// The lines collected so far, oldest first.
    pub closed spec fn lines(self) -> Seq<Seq<char>> {
        texts(self.lines@)
    }

    /// A drain that has collected nothing yet.
    pub fn new(operation: &str, stream: StreamTag) -> (drain: Self)
        ensures
            drain.operation() == operation@,
            drain.stream() == stream,
            drain.lines() == Seq::<Seq<char>>::empty(),
    {
        let lines: Vec<String> = Vec::new();
        assert(texts(lines@) =~= Seq::<Seq<char>>::empty());
        StreamDrain { operation: String::from_str(operation), stream, lines }
    }

    /// Takes the next line as decoded text: gives the drain that has kept it,
    /// and the event that reports it. All earlier lines stay as they are.
    pub fn accept_text(self, text: &str) -> (next: (Self, CliOutputEvent))
        ensures
            next.0.operation() == self.operation(),
            next.0.stream() == self.stream(),
            next.0.lines() == self.lines().push(line_of(text@)),
            next.1.operation@ == self.operation(),
            next.1.stream@ == stream_label(self.stream()),
            next.1.line@ == line_of(text@),
    {
        proof {
            use_type_invariant(&self);
            lemma_line_is_single(text@);
        }
        let line = line_text(text);
        let event = CliOutputEvent {
            operation: self.operation.clone(),
            stream: String::from_str(stream_name(self.stream)),
            line: line.clone(),
        };
        let StreamDrain { operation, stream, mut lines } = self;
        let ghost before = texts(lines@);
        lines.push(line);
        proof {
            assert(texts(lines@) =~= before.push(line@));
            assert forall|i: int| 0 <= i < texts(lines@).len() implies !(#[trigger] texts(
                lines@,
            )[i]).contains('\n') by {
                if i < before.len() {
                    assert(texts(lines@)[i] == before[i]);
                }
            }
        }
        (StreamDrain { operation, stream, lines }, event)
    }

    /// Takes the next line as the bytes that were read: decodes them, malformed
    /// stretches included, and goes on as `accept_text` does.
    pub fn accept_line(self, raw: &[u8]) -> (next: (Self, CliOutputEvent))
        ensures
            next.0.operation() == self.operation(),
            next.0.stream() == self.stream(),
            next.0.lines() == self.lines().push(line_of(lossy_text(raw@))),
            next.1.operation@ == self.operation(),
            next.1.stream@ == stream_label(self.stream()),
            next.1.line@ == line_of(lossy_text(raw@)),
    {
        let text = decode_lossy(raw);
        self.accept_text(text.as_str())
    }

    /// Everything collected, as one text with the lines one below the other.
    /// Split at the line feeds, it gives the collected lines back in their
    /// order, as long as there is at least one.
    pub fn text(&self) -> (text: String)
        ensures
            text@ == lines_text(self.lines()),
            self.lines().len() > 0 ==> split_on(text@, '\n') == self.lines(),
            single_lines(self.lines()),
    {
        proof {
            use_type_invariant(self);
            if self.lines().len() > 0 {
                lemma_split_of_join(self.lines(), '\n');
            }
        }
        let mut parts: Vec<Vec<char>> = Vec::new();
        let mut i: usize = 0;
        assert(rows(parts@) =~= texts(self.lines@).take(0));
        while i < self.lines.len()
            invariant
                i <= self.lines.len(),
                rows(parts@) == texts(self.lines@).take(i as int),
            decreases self.lines.len() - i,
        {
            let part = to_chars(self.lines[i].as_str());
            proof {
                let next = texts(self.lines@).take(i + 1);
                assert(next.drop_last() =~= texts(self.lines@).take(i as int));
                assert(next.last() == self.lines@[i as int]@);
                assert(rows(parts@.push(part)) =~= rows(parts@).push(part@));
                assert(rows(parts@).push(part@) =~= next);
            }
            parts.push(part);
            i += 1;
        }
        assert(texts(self.lines@).take(self.lines.len() as int) =~= texts(self.lines@));
        let mut feed: Vec<char> = Vec::new();
        feed.push('\n');
        assert(feed@ =~= seq!['\n']);
        from_chars(&join_chars(&parts, &feed))
    }
}

/// Gives the result of a command that has ended, from the way it ended and
/// from what the two drains collected.
///
/// A command that ended well gives its status and both texts; each text,
/// split at its line feeds, is the lines of its stream in the order in which
/// they were written. Any other gives `CommandFailed` with the command, the
/// recorded status and the whole text of standard error.
pub fn conclude_run(command: &str, exit: ExitReport, stdout: &StreamDrain, stderr: &StreamDrain) -> (result:
    Result<CommandRunOutput, OpenSpecCommandError>)
    ensures
        match result {
            Ok(output) => {
                &&& ended_well(exit)
                &&& output.status == recorded_status(exit)
                &&& output.stdout@ == lines_text(stdout.lines())
                &&& output.stderr@ == lines_text(stderr.lines())
                &&& stdout.lines().len() > 0 ==> split_on(output.stdout@, '\n') == stdout.lines()
                &&& stderr.lines().len() > 0 ==> split_on(output.stderr@, '\n') == stderr.lines()
            },
            Err(error) => {
                &&& !ended_well(exit)
                &&& error matches OpenSpecCommandError::CommandFailed {
                    command: failed,
                    status,
                    stderr: text,
                }
                &&& failed@ == command@
                &&& status == recorded_status(exit)
                &&& text@ == lines_text(stderr.lines())
            },
        },
{
    let (status, success) = match exit {
        ExitReport::Exited(code) => (code, code == 0),
        ExitReport::NoCode { success } => (-1i32, success),
    };
    if success {
        Ok(CommandRunOutput { status, stdout: stdout.text(), stderr: stderr.text() })
    } else {
        Err(
            OpenSpecCommandError::CommandFailed {
                command: String::from_str(command),
                status,
                stderr: stderr.text(),
            },
        )
    }
}

/// The failure reported where a stream of the started process cannot be had.
pub fn missing_stream_error(stream: StreamTag) -> (error: OpenSpecCommandError)
    ensures
        error matches OpenSpecCommandError::Io(detail) && detail@ == (match stream {
            StreamTag::Stdout => "Missing stdout"@,
            StreamTag::Stderr => "Missing stderr"@,
        }),
{
    match stream {
        StreamTag::Stdout => OpenSpecCommandError::Io(String::from_str("Missing stdout")),
        StreamTag::Stderr => OpenSpecCommandError::Io(String::from_str("Missing stderr")),
    }
}

/// The name of the channel on which output events are sent to the listener.
pub fn cli_output_channel() -> (name: &'static str)
    ensures
        name@ == "openspec://cli-output"@,
{
    "openspec://cli-output"
}

} // verus!
