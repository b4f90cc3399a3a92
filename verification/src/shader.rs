//! The two shader stages, their uniforms, and the handling of their build status.

use vstd::prelude::*;

verus! {

/// The text of the vertex stage: it places each vertex by the `transform`
/// uniform and hands colour and texture coordinate on.
pub const VERTEX_SHADER: &'static str = r#"#version 330 core
            layout (location = 0) in vec3 pos;
            layout (location = 1) in vec3 color;
            layout (location = 2) in vec2 texcoord;

            out vec3 ourColor;
            out vec2 TexCoord;

            uniform mat4 transform;
            void main() {
                gl_Position = transform * vec4(pos, 1.0);
                ourColor = color;
                TexCoord =  texcoord;
            }
        "#;

/// The text of the fragment stage: it tints the texel that `tex0` samples by
/// the vertex colour.
pub const FRAGMENT_SHADER: &'static str = r#"#version 330 core
            in vec3 ourColor;
            in vec2 TexCoord;

            out vec4 final_color;

            uniform sampler2D tex0;

            void main() {
                final_color = texture(tex0, TexCoord) *  vec4(ourColor, 1.0);
            }
        "#;

/// The name of the uniform that holds the frame's 4 by 4 matrix.
pub const TRANSFORM_UNIFORM: &'static str = "transform";

/// The name of the uniform that holds the sampler's texture unit.
pub const SAMPLER_UNIFORM: &'static str = "tex0";

/// The texture unit that the sampler reads.
pub const TEXTURE_UNIT: i32 = 0;

/// The room, in bytes, that is offered to the driver for a build log.
pub const LOG_CAPACITY: usize = 1024;

/// A shader stage.
#[derive(Clone, Copy, Debug, PartialEq, Eq, Structural)]
pub enum Stage {
    Vertex,
    Fragment,
}

/// A step of building the shader program whose status the driver reports.
#[derive(Clone, Copy, Debug, PartialEq, Eq, Structural)]
pub enum BuildStep {
    /// Compiling one stage.
    Compile(Stage),
    /// Linking the stages into a program.
    Link,
}

/// A failed build step, with the log that the driver wrote about it.
#[derive(Clone, Debug, PartialEq, Eq)]
pub struct BuildError {
    pub step: BuildStep,
    pub log: String,
}

/// The text of a stage.
pub open spec fn source_text(stage: Stage) -> Seq<char> {
    match stage {
        Stage::Vertex => VERTEX_SHADER@,
        Stage::Fragment => FRAGMENT_SHADER@,
    }
}

/// The words that open the message about a failed step.
pub open spec fn label(step: BuildStep) -> Seq<char> {
    match step {
        BuildStep::Compile(Stage::Vertex) => "Vertex Compile Error: "@,
        BuildStep::Compile(Stage::Fragment) => "Fragment Compile Error: "@,
        BuildStep::Link => "Program Link error: "@,
    }
}

/// The text that `String::from_utf8_lossy` makes of `bytes`.
pub uninterp spec fn lossy_text(bytes: Seq<u8>) -> Seq<char>;

/// The text of a stage.
pub fn source(stage: Stage) -> (text: &'static str)
    ensures
        text@ == source_text(stage),
{
    match stage {
        Stage::Vertex => VERTEX_SHADER,
        Stage::Fragment => FRAGMENT_SHADER,
    }
}

/// The part of a log buffer that the driver filled: its first `written`
/// bytes, or nothing where `written` is negative or exceeds the buffer.
pub fn written_log<'a>(buffer: &'a [u8], written: i32) -> (log: Option<&'a [u8]>)
    ensures
        log.is_some() == (0 <= written <= buffer@.len()),
        log.is_some() ==> log.unwrap()@ == buffer@.take(written as int),
{
    if written < 0 || written as u64 > buffer.len() as u64 {
        None
    } else {
        Some(vstd::slice::slice_subrange(buffer, 0, written as usize))
    }
}

/// Judges a build step by the status that the driver reports for it.
///
/// A status of zero is a failure, and the failure carries the driver's log as
/// text; any other status is a success, whatever the log holds.
pub fn check_build(step: BuildStep, status: i32, log: &[u8]) -> (outcome: Result<(), BuildError>)
    ensures
        outcome.is_ok() == (status != 0),
        outcome.is_err() ==> outcome.unwrap_err().step == step && outcome.unwrap_err().log@
            == lossy_text(log@),
{
    if status == 0 {
        Err(BuildError { step, log: lossy(log) })
    } else {
        Ok(())
    }
}

fn label_of(step: BuildStep) -> (text: &'static str)
    ensures
        text@ == label(step),
{
    match step {
        BuildStep::Compile(Stage::Vertex) => "Vertex Compile Error: ",
        BuildStep::Compile(Stage::Fragment) => "Fragment Compile Error: ",
        BuildStep::Link => "Program Link error: ",
    }
}

impl BuildError {
    /// The message to end the program with: which step failed, then the log.
    pub fn message(&self) -> (text: String)
        ensures
            text@ == label(self.step) + self.log@,
    {
        let mut text = String::from_str(label_of(self.step));
        text.append(self.log.as_str());
        text
    }
}

/// Calls `String::from_utf8_lossy` and takes the text as an owned string.
///
/// Claimed: the text is a function of the bytes alone, and bytes that are
/// valid UTF-8 give the text that they encode.
#[verifier::external_body]
fn lossy(bytes: &[u8]) -> (text: String)
    ensures
        text@ == lossy_text(bytes@),
        vstd::utf8::valid_utf8(bytes@) ==> text@ == vstd::utf8::decode_utf8(bytes@),
{
    String::from_utf8_lossy(bytes).into_owned()
}

/// A failed step is never silent: whatever the log holds, the message of
/// the failure is not empty, names the step and ends in the log's text.
pub proof fn lemma_failure_is_reported(error: BuildError)
    ensures
        label(error.step).len() > 0,
        (label(error.step) + error.log@).len() > 0,
        (label(error.step) + error.log@).take(label(error.step).len() as int) == label(
            error.step,
        ),
        (label(error.step) + error.log@).skip(label(error.step).len() as int) == error.log@,
{
    reveal_strlit("Vertex Compile Error: ");
    reveal_strlit("Fragment Compile Error: ");
    reveal_strlit("Program Link error: ");
    let text = label(error.step) + error.log@;
    assert(text.take(label(error.step).len() as int) =~= label(error.step));
    assert(text.skip(label(error.step).len() as int) =~= error.log@);
}

} // verus!
