//! The order in which the window, the image and the graphics objects are made.
//!
//! Nothing here touches the graphics card. The plan names the steps; the
//! program that owns the window carries them out one by one and stops at the
//! first that fails.

use crate::shader::Stage;
use vstd::prelude::*;

verus! {

/// The number of steps in the plan.
pub const PLAN_STEPS: usize = 18;

/// One step of the setup.
#[derive(Clone, Copy, Debug, PartialEq, Eq, Structural)]
pub enum SetupStep {
    /// Open the window.
    OpenWindow,
    /// Create the graphics context of the window.
    CreateContext,
    /// Open the queue from which input events are read.
    OpenEventQueue,
    /// Tie the presentation of frames to the display's refresh.
    EnableVsync,
    /// Read and decode the image.
    LoadImage,
    /// Look up the entry points of the graphics interface.
    LoadFunctions,
    /// Choose the colour that clears the frame.
    SetClearColor,
    /// Create and bind the vertex array.
    CreateVertexArray,
    /// Create and bind the vertex buffer and fill it with the packed vertices.
    CreateVertexBuffer,
    /// Create and bind the index buffer and fill it with the indices.
    CreateIndexBuffer,
    /// Describe and enable the vertex attributes.
    DescribeAttributes,
    /// Create the texture, set how it is sampled, fill it and build its mipmaps.
    CreateTexture,
    /// Create, fill and compile one shader stage.
    CompileShader(Stage),
    /// Create the program, attach both stages, link and select it.
    LinkProgram,
    /// Bind the texture to its unit and point the sampler uniform at it.
    BindSampler,
    /// Ask whether linking succeeded.
    CheckLink,
    /// Delete the two shader objects, which the linked program no longer needs.
    DeleteShaders,
}

/// The plan: every step once, in the order in which it is carried out.
pub open spec fn plan() -> Seq<SetupStep> {
    seq![
        SetupStep::OpenWindow,
        SetupStep::CreateContext,
        SetupStep::OpenEventQueue,
        SetupStep::EnableVsync,
        SetupStep::LoadImage,
        SetupStep::LoadFunctions,
        SetupStep::SetClearColor,
        SetupStep::CreateVertexArray,
        SetupStep::CreateVertexBuffer,
        SetupStep::CreateIndexBuffer,
        SetupStep::DescribeAttributes,
        SetupStep::CreateTexture,
        SetupStep::CompileShader(Stage::Vertex),
        SetupStep::CompileShader(Stage::Fragment),
        SetupStep::LinkProgram,
        SetupStep::BindSampler,
        SetupStep::CheckLink,
        SetupStep::DeleteShaders,
    ]
}

impl SetupStep {
    /// The place of a step in the plan, counted from zero.
    pub open spec fn position(self) -> int {
        match self {
            SetupStep::OpenWindow => 0,
            SetupStep::CreateContext => 1,
            SetupStep::OpenEventQueue => 2,
            SetupStep::EnableVsync => 3,
            SetupStep::LoadImage => 4,
            SetupStep::LoadFunctions => 5,
            SetupStep::SetClearColor => 6,
            SetupStep::CreateVertexArray => 7,
            SetupStep::CreateVertexBuffer => 8,
            SetupStep::CreateIndexBuffer => 9,
            SetupStep::DescribeAttributes => 10,
            SetupStep::CreateTexture => 11,
            SetupStep::CompileShader(Stage::Vertex) => 12,
            SetupStep::CompileShader(Stage::Fragment) => 13,
            SetupStep::LinkProgram => 14,
            SetupStep::BindSampler => 15,
            SetupStep::CheckLink => 16,
            SetupStep::DeleteShaders => 17,
        }
    }

    /// Whether the step calls into the graphics interface, and so needs its
    /// entry points.
    pub open spec fn draws_on_interface(self) -> bool {
        match self {
            SetupStep::OpenWindow
            | SetupStep::CreateContext
            | SetupStep::OpenEventQueue
            | SetupStep::EnableVsync
            | SetupStep::LoadImage
            | SetupStep::LoadFunctions => false,
            _ => true,
        }
    }

    /// Whether `self` can only be carried out once `earlier` is done.
    pub open spec fn needs(self, earlier: SetupStep) -> bool {
        match self {
            SetupStep::OpenWindow | SetupStep::LoadImage => false,
            SetupStep::CreateContext | SetupStep::OpenEventQueue => earlier
                == SetupStep::OpenWindow,
            SetupStep::EnableVsync | SetupStep::LoadFunctions => earlier
                == SetupStep::CreateContext,
            // Attribute pointers refer to the buffers that are bound.
            SetupStep::DescribeAttributes => earlier == SetupStep::LoadFunctions || earlier
                == SetupStep::CreateVertexArray || earlier == SetupStep::CreateVertexBuffer
                || earlier == SetupStep::CreateIndexBuffer,
            SetupStep::CreateVertexBuffer | SetupStep::CreateIndexBuffer => earlier
                == SetupStep::LoadFunctions || earlier == SetupStep::CreateVertexArray,
            SetupStep::CreateTexture => earlier == SetupStep::LoadFunctions || earlier
                == SetupStep::LoadImage,
            // A program links stages that are compiled.
            SetupStep::LinkProgram => earlier == SetupStep::LoadFunctions || earlier
                == SetupStep::CompileShader(Stage::Vertex) || earlier == SetupStep::CompileShader(
                Stage::Fragment,
            ),
            // The sampler of the program reads the texture.
            SetupStep::BindSampler => earlier == SetupStep::LoadFunctions || earlier
                == SetupStep::CreateTexture || earlier == SetupStep::LinkProgram,
            SetupStep::CheckLink => earlier == SetupStep::LoadFunctions || earlier
                == SetupStep::LinkProgram,
            SetupStep::DeleteShaders => earlier == SetupStep::LoadFunctions || earlier
                == SetupStep::CheckLink,
            _ => earlier == SetupStep::LoadFunctions,
        }
    }
}

/// The steps of the setup in the order in which they are to be carried out.
pub fn setup_steps() -> (steps: Vec<SetupStep>)
    ensures
        steps@ == plan(),
{
    let mut steps: Vec<SetupStep> = Vec::new();
    steps.push(SetupStep::OpenWindow);
    steps.push(SetupStep::CreateContext);
    steps.push(SetupStep::OpenEventQueue);
    steps.push(SetupStep::EnableVsync);
    steps.push(SetupStep::LoadImage);
    steps.push(SetupStep::LoadFunctions);
    steps.push(SetupStep::SetClearColor);
    steps.push(SetupStep::CreateVertexArray);
    steps.push(SetupStep::CreateVertexBuffer);
    steps.push(SetupStep::CreateIndexBuffer);
    steps.push(SetupStep::DescribeAttributes);
    steps.push(SetupStep::CreateTexture);
    steps.push(SetupStep::CompileShader(Stage::Vertex));
    steps.push(SetupStep::CompileShader(Stage::Fragment));
    steps.push(SetupStep::LinkProgram);
    steps.push(SetupStep::BindSampler);
    steps.push(SetupStep::CheckLink);
    steps.push(SetupStep::DeleteShaders);
    assert(steps@ =~= plan());
    steps
}

/// The kinds of object that the graphics interface hands out by number.
#[derive(Clone, Copy, Debug, PartialEq, Eq, Structural)]
pub enum ObjectKind {
    VertexArray,
    VertexBuffer,
    IndexBuffer,
    Texture,
    Shader(Stage),
    Program,
}

/// An object that the graphics interface did not make.
#[derive(Clone, Copy, Debug, PartialEq, Eq, Structural)]
pub struct MissingObject {
    pub kind: ObjectKind,
}

impl ObjectKind {
    /// Whether the setup stops where the interface hands out the number zero
    /// for an object of this kind: so for the vertex array, the vertex buffer
    /// and the shaders.
    pub open spec fn must_exist(self) -> bool {
        match self {
            ObjectKind::VertexArray | ObjectKind::VertexBuffer | ObjectKind::Shader(_) => true,
            ObjectKind::IndexBuffer | ObjectKind::Texture | ObjectKind::Program => false,
        }
    }
}

/// Judges the number that the graphics interface handed out for a new object.
///
/// Zero stands for no object. Where an object of that kind must exist, zero is
/// an error; every other number is handed back unchanged.
pub fn check_object(kind: ObjectKind, id: u32) -> (outcome: Result<u32, MissingObject>)
    ensures
        outcome.is_err() == (id == 0 && kind.must_exist()),
        outcome.is_ok() ==> outcome.unwrap() == id,
        outcome.is_err() ==> outcome.unwrap_err().kind == kind,
{
    let required: bool = match kind {
        ObjectKind::VertexArray | ObjectKind::VertexBuffer | ObjectKind::Shader(_) => true,
        ObjectKind::IndexBuffer | ObjectKind::Texture | ObjectKind::Program => false,
    };
    if id == 0 && required {
        Err(MissingObject { kind })
    } else {
        Ok(id)
    }
}

/// The plan holds every step exactly once, at its position.
pub proof fn lemma_plan_is_complete(step: SetupStep)
    ensures
        plan().len() == PLAN_STEPS,
        0 <= step.position() < plan().len(),
        plan()[step.position()] == step,
        forall|i: int| 0 <= i < plan().len() && plan()[i] == step ==> i == step.position(),
{
    assert forall|i: int| 0 <= i < plan().len() implies (#[trigger] plan()[i]).position() == i by {
        lemma_positions(i);
    }
}

/// The step at place `i` of the plan has position `i`.
proof fn lemma_positions(i: int)
    requires
        0 <= i < plan().len(),
    ensures
        plan()[i].position() == i,
{
}

/// The plan respects every dependency: whatever a step needs stands before it.
///
/// In particular both buffers are made before the attributes are described,
/// the image is loaded and the texture made before the sampler is bound, both
/// stages are compiled before the program is linked, and no step calls into the
/// graphics interface before its entry points are loaded.
pub proof fn lemma_plan_respects_needs(later: SetupStep, earlier: SetupStep)
    requires
        later.needs(earlier),
    ensures
        earlier.position() < later.position(),
        later.draws_on_interface() ==> later.needs(SetupStep::LoadFunctions),
{
}

} // verus!
