//! The helper programs that normalise an input file: which commands are run,
//! and what is made of what they print and how they end. Running them is the
//! caller's part.

use vstd::prelude::*;
use vstd::utf8::{decode_utf8, valid_utf8};

verus! {

/// A program and the arguments it is started with.
#[derive(Debug, PartialEq, Eq)]
pub struct Command {
    pub program: String,
    pub args: Vec<String>,
}

/// How a program ended and what it wrote.
#[derive(Debug, PartialEq, Eq)]
pub struct Output {
    /// Whether the program ended with a success status.
    pub success: bool,
    /// What it wrote to standard output.
    pub stdout: Vec<u8>,
    /// What it wrote to standard error.
    pub stderr: Vec<u8>,
}

/// What can go wrong around a helper program.
#[derive(Debug, PartialEq, Eq)]
pub enum CommandError {
    /// The program ended with a failure status; holds what it wrote to
    /// standard error.
    Failed(String),
    /// The program ended with a failure status, and what it wrote to
    /// standard error is not UTF-8.
    StderrNotUtf8(std::string::FromUtf8Error),
    /// What the program wrote to standard output is not UTF-8.
    OutputNotUtf8(std::string::FromUtf8Error),
    /// The path of the input file is not UTF-8.
    InputPath,
    /// The path of the output file is not UTF-8.
    OutputPath,
}

/// The characters with the Unicode property `White_Space`.
pub open spec fn is_white_space(c: char) -> bool {
    let n = c as u32;
    ||| 0x09 <= n <= 0x0d
    ||| n == 0x20
    ||| n == 0x85
    ||| n == 0xa0
    ||| n == 0x1680
    ||| 0x2000 <= n <= 0x200a
    ||| n == 0x2028
    ||| n == 0x2029
    ||| n == 0x202f
    ||| n == 0x205f
    ||| n == 0x3000
}

/// `s` without the white space it starts with.
pub open spec fn trim_start(s: Seq<char>) -> Seq<char>
    decreases s.len(),
{
    if s.len() > 0 && is_white_space(s.first()) {
        trim_start(s.drop_first())
    } else {
        s
    }
}

/// `s` without the white space it ends with.
pub open spec fn trim_end(s: Seq<char>) -> Seq<char>
    decreases s.len(),
{
    if s.len() > 0 && is_white_space(s.last()) {
        trim_end(s.drop_last())
    } else {
        s
    }
}

/// `s` without the white space at either end.
pub open spec fn trimmed(s: Seq<char>) -> Seq<char> {
    trim_end(trim_start(s))
}

/// White space in front of a text does not change what is left when the
/// white space that the text starts with is taken off.
pub proof fn lemma_trim_start_skips(pre: Seq<char>, rest: Seq<char>)
    requires
        forall|i: int| 0 <= i < pre.len() ==> is_white_space(#[trigger] pre[i]),
    ensures
        trim_start(pre + rest) == trim_start(rest),
    decreases pre.len(),
{
    if pre.len() == 0 {
        assert(pre + rest =~= rest);
    } else {
        assert((pre + rest).first() == pre[0]);
        assert((pre + rest).drop_first() =~= pre.drop_first() + rest);
        lemma_trim_start_skips(pre.drop_first(), rest);
    }
}

/// White space behind a text does not change what is left when the white
/// space that the text ends with is taken off.
pub proof fn lemma_trim_end_skips(rest: Seq<char>, post: Seq<char>)
    requires
        forall|i: int| 0 <= i < post.len() ==> is_white_space(#[trigger] post[i]),
    ensures
        trim_end(rest + post) == trim_end(rest),
    decreases post.len(),
{
    if post.len() == 0 {
        assert(rest + post =~= rest);
    } else {
        assert((rest + post).last() == post.last());
        assert((rest + post).drop_last() =~= rest + post.drop_last());
        lemma_trim_end_skips(rest, post.drop_last());
    }
}

/// Trimming gives back the core of a text: if `core` neither starts nor ends
/// with white space, then it is what is left of `core` with any white space
/// before and behind it.
pub proof fn lemma_trimmed_core(pre: Seq<char>, core: Seq<char>, post: Seq<char>)
    requires
        forall|i: int| 0 <= i < pre.len() ==> is_white_space(#[trigger] pre[i]),
        forall|i: int| 0 <= i < post.len() ==> is_white_space(#[trigger] post[i]),
        core.len() > 0 ==> !is_white_space(core.first()) && !is_white_space(core.last()),
    ensures
        trimmed(pre + core + post) == core,
{
    assert(pre + core + post =~= pre + (core + post));
    lemma_trim_start_skips(pre, core + post);
    if core.len() == 0 {
        assert(core + post =~= post + Seq::<char>::empty());
        lemma_trim_start_skips(post, Seq::<char>::empty());
        assert(core =~= Seq::<char>::empty());
    } else {
        assert((core + post).first() == core.first());
        lemma_trim_end_skips(core, post);
    }
}

/// A path that `mktemp` prints on a line of its own is read back as it is,
/// provided that it neither starts nor ends with white space.
pub proof fn lemma_trimmed_line(path: Seq<char>)
    requires
        path.len() > 0,
        !is_white_space(path.first()),
        !is_white_space(path.last()),
    ensures
        trimmed(path + seq!['\n']) == path,
{
    assert(Seq::<char>::empty() + path + seq!['\n'] =~= path + seq!['\n']);
    lemma_trimmed_core(Seq::<char>::empty(), path, seq!['\n']);
}

/// The text of each string of a list.
pub open spec fn texts(list: Seq<String>) -> Seq<Seq<char>> {
    list.map_values(|s: String| s@)
}

/// The arguments that make `ffmpeg` rewrite `input` as a WAV file `output`
/// that the acceptance policy takes: 16 kHz, one channel, signed 16-bit
/// little-endian PCM; an existing output file is overwritten.
pub open spec fn ffmpeg_args(input: Seq<char>, output: Seq<char>) -> Seq<Seq<char>> {
    seq![
        "-y"@,
        "-i"@,
        input,
        "-ar:a"@,
        "16000"@,
        "-ac:a"@,
        "1"@,
        "-codec:a"@,
        "pcm_s16le"@,
        "-f"@,
        "wav"@,
        output,
    ]
}

/// The error of `String::from_utf8`. Opaque here; it is carried to the caller
/// as it came.
#[verifier::external_type_specification]
#[verifier::external_body]
pub struct ExFromUtf8Error(std::string::FromUtf8Error);

/// `String::from_utf8` succeeds exactly on valid UTF-8, and then gives the
/// text that the bytes encode.
pub assume_specification[ String::from_utf8 ](vec: Vec<u8>) -> (r: Result<
    String,
    std::string::FromUtf8Error,
>)
    ensures
        r is Ok == valid_utf8(vec@),
        r matches Ok(text) ==> text@ == decode_utf8(vec@),
;

/// `str::trim` gives the text without leading and trailing white space, as
/// Unicode defines it.
pub assume_specification[ str::trim ](s: &str) -> (r: &str)
    ensures
        r@ == trimmed(s@),
;

impl Command {
    /// The command that creates an empty temporary file and prints its path.
    pub fn mktemp() -> (c: Command)
        ensures
            c.program@ == "mktemp"@,
            c.args@.len() == 0,
    {
        Command { program: "mktemp".to_owned(), args: Vec::new() }
    }
}

/// What a finished program amounts to: its standard output where it ended
/// with success, else its standard error as text.
pub fn exec(out: Output) -> (r: Result<Vec<u8>, CommandError>)
    ensures
        out.success ==> r == Ok::<Vec<u8>, CommandError>(out.stdout),
        !out.success && valid_utf8(out.stderr@) ==> (r matches Err(CommandError::Failed(text))
            && text@ == decode_utf8(out.stderr@)),
        !out.success && !valid_utf8(out.stderr@) ==> r matches Err(
            CommandError::StderrNotUtf8(_),
        ),
{
    if out.success {
        Ok(out.stdout)
    } else {
        match String::from_utf8(out.stderr) {
            Ok(text) => Err(CommandError::Failed(text)),
            Err(e) => Err(CommandError::StderrNotUtf8(e)),
        }
    }
}

/// The path that `mktemp` printed: its standard output as text, without the
/// white space around it.
pub fn mktemp(stdout: Vec<u8>) -> (r: Result<String, CommandError>)
    ensures
        valid_utf8(stdout@) ==> (r matches Ok(path) && path@ == trimmed(decode_utf8(stdout@))),
        !valid_utf8(stdout@) ==> r matches Err(CommandError::OutputNotUtf8(_)),
{
    match String::from_utf8(stdout) {
        Ok(text) => Ok(text.as_str().trim().to_owned()),
        Err(e) => Err(CommandError::OutputNotUtf8(e)),
    }
}

/// The `ffmpeg` command that normalises the file at `in_path` into the file
/// at `out_path`. A path is `None` where it is not UTF-8; the input path is
/// looked at first.
pub fn normalize(in_path: Option<&str>, out_path: Option<&str>) -> (r: Result<
    Command,
    CommandError,
>)
    ensures
        in_path is None ==> r matches Err(CommandError::InputPath),
        in_path is Some && out_path is None ==> r matches Err(CommandError::OutputPath),
        in_path is Some && out_path is Some ==> (r matches Ok(c) && c.program@ == "ffmpeg"@
            && texts(c.args@) == ffmpeg_args(in_path.unwrap()@, out_path.unwrap()@)),
{
    let input = match in_path {
        Some(input) => input,
        None => {
            return Err(CommandError::InputPath);
        },
    };
    let output = match out_path {
        Some(output) => output,
        None => {
            return Err(CommandError::OutputPath);
        },
    };
    let mut args: Vec<String> = Vec::new();
    args.push("-y".to_owned());
    args.push("-i".to_owned());
    args.push(input.to_owned());
    args.push("-ar:a".to_owned());
    args.push("16000".to_owned());
    args.push("-ac:a".to_owned());
    args.push("1".to_owned());
    args.push("-codec:a".to_owned());
    args.push("pcm_s16le".to_owned());
    args.push("-f".to_owned());
    args.push("wav".to_owned());
    args.push(output.to_owned());
    assert(texts(args@) =~= ffmpeg_args(input@, output@));
    Ok(Command { program: "ffmpeg".to_owned(), args })
}

} // verus!
