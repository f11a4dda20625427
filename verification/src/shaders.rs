//! Shader stages, the assembly of a program from them, and linked programs.

use vstd::prelude::*;
use vstd::string::*;
use crate::driver::{got_signed, got_text, got_unsigned, sent, Command, Driver, Exchange, Gl, GlCall, Run};
use crate::gl_error::{OpenGLError, OpenGLFailure};
use crate::gl_tex_unit::TextureUnit;
use crate::uniform_type::{UniformType, UniformUpload};

verus! {

/// How many characters of a diagnostic log are asked of the driver, and
/// kept.
pub const LOG_CAPACITY: u32 = 512;

/// The status with which the driver reports that a stage compiled or that a
/// program linked.
pub const STATUS_TRUE: i32 = 1;

/// The location of no uniform: what is assigned there is dropped.
pub const NO_LOCATION: i32 = -1;

/// Kind of a shader stage.
#[derive(Debug, Eq, PartialEq, Hash, Clone, Copy, Structural)]
pub enum ShaderType {
    VertexShader,
    TessControlShader,
    TessEvaluationShader,
    GeometryShader,
    FragmentShader,
}

impl ShaderType {
    /// Name of the kind, as it is written.
    pub open spec fn name(self) -> Seq<char> {
        match self {
            ShaderType::VertexShader => "VertexShader"@,
            ShaderType::TessControlShader => "TessControlShader"@,
            ShaderType::TessEvaluationShader => "TessEvaluationShader"@,
            ShaderType::GeometryShader => "GeometryShader"@,
            ShaderType::FragmentShader => "FragmentShader"@,
        }
    }

    /// Enumerant by which the graphics API names the kind.
    pub open spec fn enumerant(self) -> u32 {
        match self {
            ShaderType::VertexShader => 0x8B31,
            ShaderType::TessControlShader => 0x8E88,
            ShaderType::TessEvaluationShader => 0x8E87,
            ShaderType::GeometryShader => 0x8DD9,
            ShaderType::FragmentShader => 0x8B30,
        }
    }

    /// Name of the kind, as it is written.
    pub fn to_str(&self) -> (name: &'static str)
        ensures
            name@ == self.name(),
    {
        match self {
            ShaderType::VertexShader => "VertexShader",
            ShaderType::TessControlShader => "TessControlShader",
            ShaderType::TessEvaluationShader => "TessEvaluationShader",
            ShaderType::GeometryShader => "GeometryShader",
            ShaderType::FragmentShader => "FragmentShader",
        }
    }

    /// Enumerant by which the graphics API names the kind.
    pub fn into(self) -> (value: u32)
        ensures
            value == self.enumerant(),
    {
        match self {
            ShaderType::VertexShader => 0x8B31,
            ShaderType::TessControlShader => 0x8E88,
            ShaderType::TessEvaluationShader => 0x8E87,
            ShaderType::GeometryShader => 0x8DD9,
            ShaderType::FragmentShader => 0x8B30,
        }
    }
}

/// The first [`LOG_CAPACITY`] characters of a diagnostic log, or all of it
/// where it is no longer than that.
pub open spec fn capped(log: Seq<char>) -> Seq<char> {
    if log.len() <= LOG_CAPACITY {
        log
    } else {
        log.subrange(0, LOG_CAPACITY as int)
    }
}

/// Cuts a diagnostic log to its first [`LOG_CAPACITY`] characters.
pub fn cap_log(log: String) -> (kept: String)
    ensures
        kept@ == capped(log@),
{
    if log.as_str().unicode_len() <= LOG_CAPACITY as usize {
        log
    } else {
        log.as_str().substring_char(0, LOG_CAPACITY as usize).to_owned()
    }
}

/// The text of a source file: its lines in order, each followed by a line
/// feed.
pub open spec fn joined_lines(lines: Seq<Seq<char>>) -> Seq<char>
    decreases lines.len(),
{
    if lines.len() == 0 {
        Seq::empty()
    } else {
        joined_lines(lines.drop_last()) + lines.last().push('\n')
    }
}

/// The lines as sequences of characters.
pub open spec fn line_texts(lines: Seq<String>) -> Seq<Seq<char>> {
    Seq::new(lines.len(), |i: int| lines[i]@)
}

/// Puts the lines of a source file together, each followed by a line feed.
pub fn join_lines(lines: &Vec<String>) -> (text: String)
    ensures
        text@ == joined_lines(line_texts(lines@)),
{
    let mut text = String::new();
    let mut i: usize = 0;
    while i < lines.len()
        invariant
            i <= lines.len(),
            text@ == joined_lines(line_texts(lines@).take(i as int)),
        decreases lines.len() - i,
    {
        proof {
            reveal_strlit("\n");
            let all = line_texts(lines@);
            assert(all.take(i + 1).drop_last() == all.take(i as int));
            assert("\n"@ == seq!['\n']);
            assert(all[i as int] + seq!['\n'] == all[i as int].push('\n'));
        }
        text.append(lines[i].as_str());
        text.append("\n");
        i += 1;
    }
    proof {
        assert(line_texts(lines@).take(i as int) == line_texts(lines@));
    }
    text
}

/// What a result says of failure: nothing where it is `Ok`, else its error.
pub open spec fn failure_of<T>(outcome: Result<T, OpenGLError>) -> Option<OpenGLFailure> {
    match outcome {
        Ok(_) => None,
        Err(error) => Some(error@),
    }
}

/// A shader stage as the contracts see it.
pub struct Stage {
    pub kind: ShaderType,
    pub id: u32,
    pub source: Seq<char>,
}

impl Stage {
    /// The allocation of the stage's handle.
    pub open spec fn creation<F>(self) -> Seq<Exchange<F>> {
        seq![got_unsigned(Command::CreateShader { kind: self.kind }, self.id)]
    }

    /// The compilation of the stage, where the driver reports `status` and,
    /// asked for it after a failure, the log `log`: the source is submitted
    /// and compiled and the status is read; unless it is [`STATUS_TRUE`],
    /// the log is read and the compilation fails with its first
    /// [`LOG_CAPACITY`] characters.
    pub open spec fn compilation<F>(self, status: i32, log: Seq<char>) -> Run<F, OpenGLFailure> {
        let submitted = seq![
            sent(Command::ShaderSource { shader: self.id, source: self.source }),
            sent(Command::CompileShader { shader: self.id }),
            got_signed(Command::GetCompileStatus { shader: self.id }, status),
        ];
        if status == STATUS_TRUE {
            Run::passed(submitted)
        } else {
            Run::failed(
                submitted.push(
                    got_text(
                        Command::GetShaderInfoLog { shader: self.id, capacity: LOG_CAPACITY },
                        log,
                    ),
                ),
                OpenGLFailure::CompileError(capped(log)),
            )
        }
    }

    /// The release of the stage's handle.
    pub open spec fn release<F>(self) -> Seq<Exchange<F>> {
        seq![sent(Command::DeleteShader { shader: self.id })]
    }
}

/// One shader stage: its kind, its source, and the handle that the driver
/// gave it.
#[derive(Debug)]
pub struct Shader {
    sdr_type: ShaderType,
    id: u32,
    src: String,
}

impl View for Shader {
    type V = Stage;

    closed spec fn view(&self) -> Stage {
        Stage { kind: self.sdr_type, id: self.id, source: self.src@ }
    }
}

impl Shader {
    /// Allocates a stage of the given kind for the source `src`.
    pub fn new<D: Driver>(gl: &mut Gl<D>, src: &str, shader_type: ShaderType) -> (stage: Shader)
        ensures
            stage@.kind == shader_type,
            stage@.source == src@,
            final(gl).history() == old(gl).history() + stage@.creation(),
    {
        Shader::new_from_string(gl, src.to_owned(), shader_type)
    }

    fn new_from_string<D: Driver>(gl: &mut Gl<D>, src: String, shader_type: ShaderType) -> (stage:
        Shader)
        ensures
            stage@.kind == shader_type,
            stage@.source == src@,
            final(gl).history() == old(gl).history() + stage@.creation(),
    {
        let id = gl.query_unsigned(GlCall::CreateShader { kind: shader_type });
        let stage = Shader { sdr_type: shader_type, id, src };
        proof {
            assert(old(gl).history().push(
                got_unsigned(Command::CreateShader { kind: shader_type }, id),
            ) == old(gl).history() + stage@.creation::<D::Scalar>());
        }
        stage
    }

    /// Allocates a stage of the given kind for a source file that was read
    /// line by line. The source is the lines in order, each followed by a
    /// line feed. Where the file could not be read, nothing is asked of the
    /// driver and the failure to read is handed on.
    pub fn from_path<D: Driver>(
        gl: &mut Gl<D>,
        lines: Result<Vec<String>, std::io::Error>,
        shader_type: ShaderType,
    ) -> (loaded: Result<Shader, std::io::Error>)
        ensures
            match lines {
                Ok(read) => {
                    &&& loaded is Ok
                    &&& loaded->Ok_0@.kind == shader_type
                    &&& loaded->Ok_0@.source == joined_lines(line_texts(read@))
                    &&& final(gl).history() == old(gl).history() + loaded->Ok_0@.creation()
                },
                Err(error) => {
                    &&& loaded == Err::<Shader, std::io::Error>(error)
                    &&& final(gl).history() == old(gl).history()
                },
            },
    {
        match lines {
            Ok(read) => {
                let src = join_lines(&read);
                Ok(Shader::new_from_string(gl, src, shader_type))
            },
            Err(error) => Err(error),
        }
    }

    /// Kind of the stage.
    pub fn shader_type(&self) -> (kind: ShaderType)
        ensures
            kind == self@.kind,
    {
        self.sdr_type
    }

    /// Handle of the stage.
    pub fn id(&self) -> (id: u32)
        ensures
            id == self@.id,
    {
        self.id
    }

    /// Source of the stage.
    pub fn source(&self) -> (src: &str)
        ensures
            src@ == self@.source,
    {
        self.src.as_str()
    }

    /// Submits the source and compiles it. Succeeds where the driver
    /// reports [`STATUS_TRUE`]; else fails with the first [`LOG_CAPACITY`]
    /// characters of the driver's log.
    pub fn compile_shader<D: Driver>(&self, gl: &mut Gl<D>) -> (outcome: Result<(), OpenGLError>)
        ensures
            exists|status: i32, log: Seq<char>|
                {
                    &&& final(gl).history() == old(gl).history() + (#[trigger] self@.compilation::<
                        D::Scalar,
                    >(status, log)).trace
                    &&& failure_of(outcome) == self@.compilation::<D::Scalar>(status, log).failure
                },
    {
        let (outcome, _) = self.compile_watched(gl);
        outcome
    }

    /// As [`Shader::compile_shader`], and tells what the driver reported.
    pub(crate) fn compile_watched<D: Driver>(&self, gl: &mut Gl<D>) -> (done: (
        Result<(), OpenGLError>,
        Ghost<(i32, Seq<char>)>,
    ))
        ensures
            final(gl).history() == old(gl).history() + self@.compilation::<D::Scalar>(
                done.1@.0,
                done.1@.1,
            ).trace,
            failure_of(done.0) == self@.compilation::<D::Scalar>(done.1@.0, done.1@.1).failure,
    {
        gl.submit(GlCall::ShaderSource { shader: self.id, source: self.src.clone() });
        gl.submit(GlCall::CompileShader { shader: self.id });
        let status = gl.query_signed(GlCall::GetCompileStatus { shader: self.id }, 0);
        if status != STATUS_TRUE {
            let log = gl.query_text(
                GlCall::GetShaderInfoLog { shader: self.id, capacity: LOG_CAPACITY },
            );
            let ghost heard = log@;
            let error = OpenGLError::CompileError(cap_log(log));
            proof {
                assert(gl.history() == old(gl).history() + self@.compilation::<D::Scalar>(
                    status,
                    heard,
                ).trace);
            }
            return (Err(error), Ghost((status, heard)));
        }
        proof {
            assert(gl.history() == old(gl).history() + self@.compilation::<D::Scalar>(
                status,
                Seq::empty(),
            ).trace);
        }
        (Ok(()), Ghost((status, Seq::empty())))
    }

    /// Releases the handle of the stage.
    pub fn delete_shader<D: Driver>(self, gl: &mut Gl<D>)
        ensures
            final(gl).history() == old(gl).history() + self@.release(),
    {
        gl.submit(GlCall::DeleteShader { shader: self.id });
        proof {
            assert(old(gl).history().push(sent(Command::DeleteShader { shader: self.id }))
                == old(gl).history() + self@.release::<D::Scalar>());
        }
    }
}

/// A program under assembly as the contracts see it: its handle and the
/// stages attached to it, in the order in which they were attached.
pub struct Assembly {
    pub id: u32,
    pub stages: Seq<Stage>,
}

impl Assembly {
    /// Whether a stage of the given kind is attached.
    pub open spec fn has_stage(self, kind: ShaderType) -> bool {
        exists|i: int| 0 <= i < self.stages.len() && (#[trigger] self.stages[i]).kind == kind
    }

    /// No two attached stages are of one kind.
    pub open spec fn one_stage_per_kind(self) -> bool {
        forall|i: int, j: int|
            0 <= i < j < self.stages.len() ==> (#[trigger] self.stages[i]).kind != (
            #[trigger] self.stages[j]).kind
    }

    /// The assembly with `stage` attached after the others.
    pub open spec fn with_stage(self, stage: Stage) -> Assembly {
        Assembly { id: self.id, stages: self.stages.push(stage) }
    }

    /// The allocation of the program's handle.
    pub open spec fn creation<F>(self) -> Seq<Exchange<F>> {
        seq![got_unsigned(Command::CreateProgram, self.id)]
    }

    /// The attachment of `stage`, where the driver reports `status` and
    /// `log` of its compilation. It fails at once, with nothing asked of the
    /// driver, where a stage of that kind is attached already; else the
    /// stage is compiled and, if that succeeds, attached.
    pub open spec fn attachment<F>(self, stage: Stage, status: i32, log: Seq<char>) -> Run<
        F,
        OpenGLFailure,
    > {
        if self.has_stage(stage.kind) {
            Run::failed(Seq::empty(), OpenGLFailure::ProgramAlreadyContainedShader(stage.kind))
        } else {
            stage.compilation(status, log).followed_by(
                Run::passed(
                    seq![sent(Command::AttachShader { program: self.id, shader: stage.id })],
                ),
            )
        }
    }

    /// The assembly after the attachment of `stage` was tried: with the
    /// stage, where the attachment succeeded, and unchanged where it failed.
    pub open spec fn after_attachment(self, stage: Stage, status: i32) -> Assembly {
        if !self.has_stage(stage.kind) && status == STATUS_TRUE {
            self.with_stage(stage)
        } else {
            self
        }
    }

    /// The detachment of every stage, in the order of attachment.
    pub open spec fn detachments<F>(self) -> Seq<Exchange<F>> {
        Seq::new(
            self.stages.len(),
            |i: int| sent(Command::DetachShader { program: self.id, shader: self.stages[i].id }),
        )
    }

    /// The linking of the program, where the driver reports `status` and,
    /// asked for it after a failure, the log `log`: the program is linked
    /// and the status is read; where it is [`STATUS_TRUE`] every stage is
    /// detached; else the log is read and the linking fails with its first
    /// [`LOG_CAPACITY`] characters.
    pub open spec fn linking<F>(self, status: i32, log: Seq<char>) -> Run<F, OpenGLFailure> {
        let asked = seq![
            sent(Command::LinkProgram { program: self.id }),
            got_signed(Command::GetLinkStatus { program: self.id }, status),
        ];
        if status == STATUS_TRUE {
            Run::passed(asked + self.detachments())
        } else {
            Run::failed(
                asked.push(
                    got_text(
                        Command::GetProgramInfoLog { program: self.id, capacity: LOG_CAPACITY },
                        log,
                    ),
                ),
                OpenGLFailure::LinkerError(capped(log)),
            )
        }
    }
}

/// A program under assembly: a handle, and at most one stage of each kind.
#[derive(Debug)]
pub struct ShaderProgram<'a> {
    id: u32,
    loaded_phases: Vec<&'a Shader>,
}

impl<'a> View for ShaderProgram<'a> {
    type V = Assembly;

    closed spec fn view(&self) -> Assembly {
        Assembly {
            id: self.id,
            stages: Seq::new(self.loaded_phases@.len(), |i: int| self.loaded_phases@[i]@),
        }
    }
}

impl<'a> ShaderProgram<'a> {
    /// Allocates a program with no stage attached.
    pub fn new<D: Driver>(gl: &mut Gl<D>) -> (program: ShaderProgram<'a>)
        ensures
            program@.stages == Seq::<Stage>::empty(),
            program@.one_stage_per_kind(),
            final(gl).history() == old(gl).history() + program@.creation(),
    {
        let id = gl.query_unsigned(GlCall::CreateProgram);
        let program = ShaderProgram { id, loaded_phases: Vec::new() };
        proof {
            assert(program@.stages == Seq::<Stage>::empty());
            assert(old(gl).history().push(got_unsigned(Command::CreateProgram, id)) == old(
                gl,
            ).history() + program@.creation::<D::Scalar>());
        }
        program
    }

    /// Handle of the program.
    pub fn id(&self) -> (id: u32)
        ensures
            id == self@.id,
    {
        self.id
    }

    /// Number of stages attached.
    pub fn stage_count(&self) -> (count: usize)
        ensures
            count == self@.stages.len(),
    {
        self.loaded_phases.len()
    }

    /// Whether a stage of the given kind is attached.
    pub fn contains(&self, kind: ShaderType) -> (found: bool)
        ensures
            found == self@.has_stage(kind),
    {
        let mut i: usize = 0;
        while i < self.loaded_phases.len()
            invariant
                i <= self.loaded_phases.len(),
                forall|j: int| 0 <= j < i ==> (#[trigger] self@.stages[j]).kind != kind,
            decreases self.loaded_phases.len() - i,
        {
            if self.loaded_phases[i].sdr_type == kind {
                assert(self@.stages[i as int].kind == kind);
                return true;
            }
            i += 1;
        }
        false
    }

    /// Attaches `shader`. Fails, with nothing asked of the driver and the
    /// program unchanged, where a stage of that kind is attached already.
    /// Else the stage is compiled; where that fails the program is unchanged
    /// too, and where it succeeds the stage is attached after the others.
    pub fn attach_shader<D: Driver>(&mut self, gl: &mut Gl<D>, shader: &'a Shader) -> (outcome:
        Result<(), OpenGLError>)
        ensures
            exists|status: i32, log: Seq<char>|
                {
                    &&& final(gl).history() == old(gl).history() + (#[trigger] old(
                        self,
                    )@.attachment::<D::Scalar>(shader@, status, log)).trace
                    &&& failure_of(outcome) == old(self)@.attachment::<D::Scalar>(
                        shader@,
                        status,
                        log,
                    ).failure
                    &&& final(self)@ == old(self)@.after_attachment(shader@, status)
                },
            old(self)@.one_stage_per_kind() ==> final(self)@.one_stage_per_kind(),
    {
        let (outcome, _) = self.attach_watched(gl, shader);
        outcome
    }

    /// As [`ShaderProgram::attach_shader`], and tells what the driver
    /// reported.
    pub(crate) fn attach_watched<D: Driver>(&mut self, gl: &mut Gl<D>, shader: &'a Shader) -> (done:
        (Result<(), OpenGLError>, Ghost<(i32, Seq<char>)>))
        ensures
            final(gl).history() == old(gl).history() + old(self)@.attachment::<D::Scalar>(
                shader@,
                done.1@.0,
                done.1@.1,
            ).trace,
            failure_of(done.0) == old(self)@.attachment::<D::Scalar>(
                shader@,
                done.1@.0,
                done.1@.1,
            ).failure,
            final(self)@ == old(self)@.after_attachment(shader@, done.1@.0),
            old(self)@.one_stage_per_kind() ==> final(self)@.one_stage_per_kind(),
    {
        if self.contains(shader.sdr_type) {
            proof {
                assert(gl.history() == old(gl).history() + Seq::<Exchange<D::Scalar>>::empty());
            }
            return (
                Err(OpenGLError::ProgramAlreadyContainedShader(shader.sdr_type)),
                Ghost((0, Seq::empty())),
            );
        }
        let (compiled, Ghost(heard)) = shader.compile_watched(gl);
        let ghost compiling = shader@.compilation::<D::Scalar>(heard.0, heard.1);
        match compiled {
            Err(error) => (Err(error), Ghost(heard)),
            Ok(()) => {
                gl.submit(GlCall::AttachShader { program: self.id, shader: shader.id });
                let ghost before = self@;
                self.loaded_phases.push(shader);
                proof {
                    assert(self@.stages == before.stages.push(shader@));
                    assert(gl.history() == old(gl).history() + (compiling.trace + seq![
                        sent(Command::AttachShader { program: self.id, shader: shader.id }),
                    ]));
                    if before.one_stage_per_kind() {
                        assert forall|i: int, j: int|
                            0 <= i < j < self@.stages.len() implies (#[trigger] self@.stages[i]).kind
                            != (#[trigger] self@.stages[j]).kind by {
                            if j == before.stages.len() {
                                assert(before.stages[i].kind != shader@.kind);
                            } else {
                                assert(before.stages[i].kind != before.stages[j].kind);
                            }
                        }
                    }
                }
                (Ok(()), Ghost(heard))
            },
        }
    }
}

/// After a stage was attached, the program has a stage of its kind, and one
/// stage more than before; and a program that has a stage of some kind is
/// left as it is by the attachment of another stage of that kind, which
/// fails.
pub proof fn lemma_second_stage_of_a_kind_is_refused<F>(
    program: Assembly,
    first: Stage,
    second: Stage,
    status: i32,
    log: Seq<char>,
)
    requires
        !program.has_stage(first.kind),
        second.kind == first.kind,
    ensures
        program.after_attachment(first, STATUS_TRUE) == program.with_stage(first),
        program.with_stage(first).has_stage(second.kind),
        program.with_stage(first).attachment::<F>(second, status, log) == Run::<
            F,
            OpenGLFailure,
        >::failed(Seq::empty(), OpenGLFailure::ProgramAlreadyContainedShader(second.kind)),
        program.with_stage(first).after_attachment(second, status) == program.with_stage(first),
        program.with_stage(first).after_attachment(second, status).stages.len()
            == program.stages.len() + 1,
{
    let grown = program.with_stage(first);
    assert(grown.stages[program.stages.len() as int].kind == second.kind);
}

/// A linked program. It is not changed after it was made.
#[derive(Debug)]
pub struct CompiledShaderProgram {
    id: u32,
}

/// What went wrong while a program was made from source files.
#[derive(Debug)]
pub enum ShaderCompileError {
    /// A stage failed to compile, or the program failed to link.
    OpenGLError(OpenGLError),
    /// A source file could not be read.
    IOError(std::io::Error),
}

/// A [`ShaderCompileError`] with its texts as sequences of characters.
pub enum AssemblyFailure {
    OpenGLError(OpenGLFailure),
    IOError(std::io::Error),
}

impl View for ShaderCompileError {
    type V = AssemblyFailure;

    open spec fn view(&self) -> AssemblyFailure {
        match *self {
            ShaderCompileError::OpenGLError(error) => AssemblyFailure::OpenGLError(error@),
            ShaderCompileError::IOError(error) => AssemblyFailure::IOError(error),
        }
    }
}

impl From<std::io::Error> for ShaderCompileError {
    fn from(err: std::io::Error) -> (failure: ShaderCompileError) {
        ShaderCompileError::IOError(err)
    }
}

impl vstd::std_specs::convert::FromSpecImpl<std::io::Error> for ShaderCompileError {
    open spec fn obeys_from_spec() -> bool {
        true
    }

    open spec fn from_spec(err: std::io::Error) -> ShaderCompileError {
        ShaderCompileError::IOError(err)
    }
}

impl From<OpenGLError> for ShaderCompileError {
    fn from(err: OpenGLError) -> (failure: ShaderCompileError) {
        ShaderCompileError::OpenGLError(err)
    }
}

impl vstd::std_specs::convert::FromSpecImpl<OpenGLError> for ShaderCompileError {
    open spec fn obeys_from_spec() -> bool {
        true
    }

    open spec fn from_spec(err: OpenGLError) -> ShaderCompileError {
        ShaderCompileError::OpenGLError(err)
    }
}

impl CompiledShaderProgram {
    /// Handle of the program.
    pub closed spec fn handle(&self) -> u32 {
        self.id
    }

    /// Handle of the program.
    pub fn id(&self) -> (id: u32)
        ensures
            id == self.handle(),
    {
        self.id
    }

    /// Links `prog`. Where the driver reports [`STATUS_TRUE`], every stage is
    /// detached and the linked program, which has the handle of `prog`, is
    /// returned. Else the result is the failure, with the first
    /// [`LOG_CAPACITY`] characters of the driver's log, and `prog` as it
    /// was.
    pub fn compile_shader<'a, D: Driver>(gl: &mut Gl<D>, prog: ShaderProgram<'a>) -> (outcome:
        Result<CompiledShaderProgram, (OpenGLError, ShaderProgram<'a>)>)
        ensures
            exists|status: i32, log: Seq<char>|
                {
                    &&& final(gl).history() == old(gl).history() + (#[trigger] prog@.linking::<
                        D::Scalar,
                    >(status, log)).trace
                    &&& match outcome {
                        Ok(linked) => {
                            &&& prog@.linking::<D::Scalar>(status, log).failure is None
                            &&& linked.handle() == prog@.id
                        },
                        Err((error, unlinked)) => {
                            &&& prog@.linking::<D::Scalar>(status, log).failure == Some(error@)
                            &&& unlinked == prog
                        },
                    }
                },
    {
        let (outcome, _) = CompiledShaderProgram::link_watched(gl, prog);
        outcome
    }

    /// As [`CompiledShaderProgram::compile_shader`], and tells what the
    /// driver reported.
    pub(crate) fn link_watched<'a, D: Driver>(gl: &mut Gl<D>, prog: ShaderProgram<'a>) -> (done: (
        Result<CompiledShaderProgram, (OpenGLError, ShaderProgram<'a>)>,
        Ghost<(i32, Seq<char>)>,
    ))
        ensures
            final(gl).history() == old(gl).history() + prog@.linking::<D::Scalar>(
                done.1@.0,
                done.1@.1,
            ).trace,
            match done.0 {
                Ok(linked) => {
                    &&& prog@.linking::<D::Scalar>(done.1@.0, done.1@.1).failure is None
                    &&& linked.handle() == prog@.id
                },
                Err((error, unlinked)) => {
                    &&& prog@.linking::<D::Scalar>(done.1@.0, done.1@.1).failure == Some(error@)
                    &&& unlinked == prog
                },
            },
    {
        gl.submit(GlCall::LinkProgram { program: prog.id });
        let status = gl.query_signed(GlCall::GetLinkStatus { program: prog.id }, 0);
        let ghost asked = seq![
            sent::<D::Scalar>(Command::LinkProgram { program: prog.id }),
            got_signed(Command::GetLinkStatus { program: prog.id }, status),
        ];
        assert(gl.history() == old(gl).history() + asked);
        if status != STATUS_TRUE {
            let log = gl.query_text(
                GlCall::GetProgramInfoLog { program: prog.id, capacity: LOG_CAPACITY },
            );
            let ghost heard = log@;
            let error = OpenGLError::LinkerError(cap_log(log));
            proof {
                assert(gl.history() == old(gl).history() + prog@.linking::<D::Scalar>(
                    status,
                    heard,
                ).trace);
            }
            return (Err((error, prog)), Ghost((status, heard)));
        }
        let mut i: usize = 0;
        while i < prog.loaded_phases.len()
            invariant
                i <= prog.loaded_phases.len(),
                gl.history() == old(gl).history() + (asked + prog@.detachments().take(i as int)),
            decreases prog.loaded_phases.len() - i,
        {
            gl.submit(GlCall::DetachShader { program: prog.id, shader: prog.loaded_phases[i].id });
            proof {
                let all = prog@.detachments::<D::Scalar>();
                assert(all.take(i + 1) == all.take(i as int).push(all[i as int]));
                assert(gl.history() == old(gl).history() + (asked + all.take(i + 1)));
            }
            i += 1;
        }
        proof {
            let all = prog@.detachments::<D::Scalar>();
            assert(all.take(i as int) == all);
        }
        (Ok(CompiledShaderProgram { id: prog.id }), Ghost((status, Seq::empty())))
    }

    /// Makes this program the one in use.
    pub fn use_program<D: Driver>(&self, gl: &mut Gl<D>)
        ensures
            final(gl).history() == old(gl).history().push(
                sent(Command::UseProgram { program: self.handle() }),
            ),
    {
        gl.submit(GlCall::UseProgram { program: self.id });
    }

    /// Leaves no program in use, whichever was.
    pub fn unbind_program<D: Driver>(&self, gl: &mut Gl<D>)
        ensures
            final(gl).history() == old(gl).history().push(sent(Command::UseProgram { program: 0 })),
    {
        gl.submit(GlCall::UseProgram { program: 0 });
    }

    /// What [`CompiledShaderProgram::set_uniform`] adds to the history where
    /// the driver answers `location`: the location of the uniform is asked
    /// by name, and the value is assigned at the location that was answered.
    pub open spec fn assignment<F>(&self, name: Seq<char>, location: i32, data: UniformUpload<F>) -> Seq<
        Exchange<F>,
    > {
        seq![
            got_signed(Command::GetUniformLocation { program: self.handle(), name }, location),
            sent(Command::Uniform { location, data }),
        ]
    }

    /// Assigns `uniform` to the uniform called `name`. The location is asked
    /// of the driver each time; a driver that answers nothing counts as
    /// having answered [`NO_LOCATION`].
    pub fn set_uniform<D: Driver, T: UniformType<D::Scalar>>(
        &self,
        gl: &mut Gl<D>,
        name: &str,
        uniform: &T,
    )
        ensures
            exists|location: i32|
                final(gl).history() == old(gl).history() + #[trigger] self.assignment(
                    name@,
                    location,
                    uniform.upload(),
                ),
    {
        let loc = gl.query_signed(
            GlCall::GetUniformLocation { program: self.id, name: name.to_owned() },
            NO_LOCATION,
        );
        uniform.assign_to_current_program(gl, loc);
        proof {
            assert(gl.history() == old(gl).history() + self.assignment(
                name@,
                loc,
                uniform.upload(),
            ));
        }
    }

    /// Binds the sampler called `name` to the texture unit `tex_unit`.
    pub fn assign_texture_to_unit<D: Driver>(&self, gl: &mut Gl<D>, name: &str, tex_unit: TextureUnit)
        ensures
            exists|location: i32|
                final(gl).history() == old(gl).history() + #[trigger] self.assignment(
                    name@,
                    location,
                    UniformUpload::Ints { width: 1, values: seq![tex_unit.slot() as i32] },
                ),
    {
        self.set_uniform(gl, name, &tex_unit)
    }
}

/// What the driver reported of one stage while a program was made from
/// source files: the stage's handle, status and log of its compilation, and
/// status and log of its compilation at its attachment.
pub struct StageReport {
    pub id: u32,
    pub status: i32,
    pub log: Seq<char>,
    pub attach_status: i32,
    pub attach_log: Seq<char>,
}

/// What the driver reported while a program was made from source files.
pub struct AssemblyReport {
    pub program: u32,
    pub vertex: StageReport,
    pub fragment: StageReport,
    pub geometry: StageReport,
    pub link_status: i32,
    pub link_log: Seq<char>,
}

/// A run of steps that may allocate stages: the run, and the stages that it
/// allocated, in the order of allocation.
pub struct Build<F> {
    pub run: Run<F, AssemblyFailure>,
    pub opened: Seq<Stage>,
}

impl<F> Build<F> {
    /// A step of program assembly, which allocates no stage.
    pub open spec fn step(run: Run<F, OpenGLFailure>) -> Self {
        Build {
            run: Run {
                trace: run.trace,
                failure: match run.failure {
                    Some(failure) => Some(AssemblyFailure::OpenGLError(failure)),
                    None => None,
                },
            },
            opened: Seq::empty(),
        }
    }

    /// The step that makes `stage` of a source file: it allocates the stage
    /// where the file was read, and fails with the failure to read it, with
    /// nothing asked of the driver, where it was not.
    pub open spec fn loading(file: Result<Vec<String>, std::io::Error>, stage: Stage) -> Self {
        match file {
            Ok(_) => Build { run: Run::passed(stage.creation()), opened: seq![stage] },
            Err(error) => Build {
                run: Run::failed(Seq::empty(), AssemblyFailure::IOError(error)),
                opened: Seq::empty(),
            },
        }
    }

    /// These steps followed by `next`, which is not begun if these failed.
    pub open spec fn followed_by(self, next: Self) -> Self {
        if self.run.failure is Some {
            self
        } else {
            Build { run: self.run.followed_by(next.run), opened: self.opened + next.opened }
        }
    }

    /// The release of every stage that was allocated, the last one first.
    pub open spec fn releases(self) -> Seq<Exchange<F>> {
        Seq::new(
            self.opened.len(),
            |i: int|
                sent(Command::DeleteShader { shader: self.opened[self.opened.len() - 1 - i].id }),
        )
    }
}

/// The stage of the given kind and handle whose source is the lines of
/// `file`, each followed by a line feed.
pub open spec fn file_stage(kind: ShaderType, file: Result<Vec<String>, std::io::Error>, id: u32) -> Stage {
    Stage {
        kind,
        id,
        source: match file {
            Ok(lines) => joined_lines(line_texts(lines@)),
            Err(_) => Seq::empty(),
        },
    }
}

/// The steps by which a program is made from a vertex, a fragment and, if
/// there is one, a geometry source file, where the driver reports `told`.
/// The program is allocated; the vertex stage is made and compiled, then the
/// fragment stage; the vertex stage is attached, then the fragment stage; a
/// geometry stage is made and attached; the program is linked. The first
/// step that fails ends the run.
pub open spec fn generation<F>(
    vs: Result<Vec<String>, std::io::Error>,
    fs: Result<Vec<String>, std::io::Error>,
    gs: Option<Result<Vec<String>, std::io::Error>>,
    told: AssemblyReport,
) -> Build<F> {
    let program = Assembly { id: told.program, stages: Seq::empty() };
    let vertex = file_stage(ShaderType::VertexShader, vs, told.vertex.id);
    let fragment = file_stage(ShaderType::FragmentShader, fs, told.fragment.id);
    let staged = program.with_stage(vertex).with_stage(fragment);
    let fore = Build::step(Run::passed(program.creation())).followed_by(
        Build::loading(vs, vertex),
    ).followed_by(Build::step(vertex.compilation(told.vertex.status, told.vertex.log))).followed_by(
        Build::loading(fs, fragment),
    ).followed_by(
        Build::step(fragment.compilation(told.fragment.status, told.fragment.log)),
    ).followed_by(
        Build::step(program.attachment(vertex, told.vertex.attach_status, told.vertex.attach_log)),
    ).followed_by(
        Build::step(
            program.with_stage(vertex).attachment(
                fragment,
                told.fragment.attach_status,
                told.fragment.attach_log,
            ),
        ),
    );
    match gs {
        None => fore.followed_by(Build::step(staged.linking(told.link_status, told.link_log))),
        Some(file) => {
            let geometry = file_stage(ShaderType::GeometryShader, file, told.geometry.id);
            fore.followed_by(Build::loading(file, geometry)).followed_by(
                Build::step(
                    staged.attachment(
                        geometry,
                        told.geometry.attach_status,
                        told.geometry.attach_log,
                    ),
                ),
            ).followed_by(
                Build::step(staged.with_stage(geometry).linking(told.link_status, told.link_log)),
            )
        },
    }
}

impl CompiledShaderProgram {
    /// Makes a program from a vertex, a fragment and, if there is one, a
    /// geometry source file, each handed over as its lines or as the
    /// failure to read it. The steps are those of [`generation`]; the first
    /// one that fails ends the work and gives the failure. Whether the work
    /// succeeds or fails, every stage that was allocated is released at its
    /// end, the last one first.
    pub fn generate_program<D: Driver>(
        gl: &mut Gl<D>,
        vs_lines: Result<Vec<String>, std::io::Error>,
        fs_lines: Result<Vec<String>, std::io::Error>,
        gs_lines: Option<Result<Vec<String>, std::io::Error>>,
    ) -> (outcome: Result<CompiledShaderProgram, ShaderCompileError>)
        ensures
            exists|told: AssemblyReport|
                {
                    let build = #[trigger] generation::<D::Scalar>(
                        vs_lines,
                        fs_lines,
                        gs_lines,
                        told,
                    );
                    &&& final(gl).history() == old(gl).history() + (build.run.trace
                        + build.releases())
                    &&& match outcome {
                        Ok(linked) => build.run.failure is None && linked.handle() == told.program,
                        Err(error) => build.run.failure == Some(error@),
                    }
                },
    {
        let ghost vs = vs_lines;
        let ghost fs = fs_lines;
        let ghost gs = gs_lines;
        let ghost start = gl.history();
        let ghost blank = StageReport {
            id: 0,
            status: 0,
            log: Seq::empty(),
            attach_status: 0,
            attach_log: Seq::empty(),
        };
        let mut shdr_prog = ShaderProgram::new(gl);
        let ghost program = Assembly { id: shdr_prog@.id, stages: Seq::empty() };
        assert(shdr_prog@ == program);
        let ghost mut told = AssemblyReport {
            program: program.id,
            vertex: blank,
            fragment: blank,
            geometry: blank,
            link_status: 0,
            link_log: Seq::empty(),
        };
        let ghost s0 = Build::<D::Scalar>::step(Run::passed(program.creation()));

        let vs_shdr = match Shader::from_path(gl, vs_lines, ShaderType::VertexShader) {
            Ok(stage) => stage,
            Err(error) => {
                proof {
                    let build = generation::<D::Scalar>(vs, fs, gs, told);
                    assert(build.run.trace == program.creation::<D::Scalar>());
                    assert(build.opened == Seq::<Stage>::empty());
                    assert(gl.history() == start + (build.run.trace + build.releases()));
                }
                return Err(ShaderCompileError::IOError(error));
            },
        };
        let ghost vertex = vs_shdr@;
        assert(vertex == file_stage(ShaderType::VertexShader, vs, vertex.id));
        let ghost s1 = s0.followed_by(Build::loading(vs, vertex));
        assert(gl.history() == start + s1.run.trace);
        assert(s1.opened == seq![vertex]);

        let (compiled, Ghost(heard)) = vs_shdr.compile_watched(gl);
        proof {
            told = AssemblyReport {
                vertex: StageReport { id: vertex.id, status: heard.0, log: heard.1, ..blank },
                ..told
            };
        }
        let ghost s2 = s1.followed_by(Build::step(vertex.compilation(heard.0, heard.1)));
        assert(gl.history() == start + s2.run.trace);
        assert(s2.opened == seq![vertex]);
        if let Err(error) = compiled {
            vs_shdr.delete_shader(gl);
            proof {
                let build = generation::<D::Scalar>(vs, fs, gs, told);
                assert(build == s2);
                assert(build.releases() == vertex.release::<D::Scalar>());
                assert(gl.history() == start + (build.run.trace + build.releases()));
            }
            return Err(ShaderCompileError::OpenGLError(error));
        }

        let fs_shdr = match Shader::from_path(gl, fs_lines, ShaderType::FragmentShader) {
            Ok(stage) => stage,
            Err(error) => {
                vs_shdr.delete_shader(gl);
                proof {
                    let build = generation::<D::Scalar>(vs, fs, gs, told);
                    assert(build.run.trace == s2.run.trace);
                    assert(build.opened == seq![vertex]);
                    assert(build.releases() == vertex.release::<D::Scalar>());
                    assert(gl.history() == start + (build.run.trace + build.releases()));
                }
                return Err(ShaderCompileError::IOError(error));
            },
        };
        let ghost fragment = fs_shdr@;
        assert(fragment == file_stage(ShaderType::FragmentShader, fs, fragment.id));
        let ghost s3 = s2.followed_by(Build::loading(fs, fragment));
        assert(gl.history() == start + s3.run.trace);
        assert(s3.opened == seq![vertex, fragment]);
        let ghost both = fragment.release::<D::Scalar>() + vertex.release::<D::Scalar>();

        let (compiled, Ghost(heard)) = fs_shdr.compile_watched(gl);
        proof {
            told = AssemblyReport {
                fragment: StageReport { id: fragment.id, status: heard.0, log: heard.1, ..blank },
                ..told
            };
        }
        let ghost s4 = s3.followed_by(Build::step(fragment.compilation(heard.0, heard.1)));
        assert(gl.history() == start + s4.run.trace);
        assert(s4.opened == seq![vertex, fragment]);
        if let Err(error) = compiled {
            fs_shdr.delete_shader(gl);
            vs_shdr.delete_shader(gl);
            proof {
                let build = generation::<D::Scalar>(vs, fs, gs, told);
                assert(build == s4);
                assert(build.releases() == both);
                assert(gl.history() == start + (build.run.trace + build.releases()));
            }
            return Err(ShaderCompileError::OpenGLError(error));
        }
        let (attached, Ghost(heard)) = shdr_prog.attach_watched(gl, &vs_shdr);
        proof {
            told = AssemblyReport {
                vertex: StageReport { attach_status: heard.0, attach_log: heard.1, ..told.vertex },
                ..told
            };
            assert(!program.has_stage(vertex.kind));
        }
        let ghost s5 = s4.followed_by(Build::step(program.attachment(vertex, heard.0, heard.1)));
        assert(gl.history() == start + s5.run.trace);
        assert(s5.opened == seq![vertex, fragment]);
        if let Err(error) = attached {
            fs_shdr.delete_shader(gl);
            vs_shdr.delete_shader(gl);
            proof {
                let build = generation::<D::Scalar>(vs, fs, gs, told);
                assert(build == s5);
                assert(build.releases() == both);
                assert(gl.history() == start + (build.run.trace + build.releases()));
            }
            return Err(ShaderCompileError::OpenGLError(error));
        }
        let ghost with_vertex = program.with_stage(vertex);
        assert(shdr_prog@ == with_vertex);
        let (attached, Ghost(heard)) = shdr_prog.attach_watched(gl, &fs_shdr);
        proof {
            told = AssemblyReport {
                fragment: StageReport {
                    attach_status: heard.0,
                    attach_log: heard.1,
                    ..told.fragment
                },
                ..told
            };
            assert(!with_vertex.has_stage(fragment.kind));
        }
        let ghost s6 = s5.followed_by(
            Build::step(with_vertex.attachment(fragment, heard.0, heard.1)),
        );
        assert(gl.history() == start + s6.run.trace);
        assert(s6.opened == seq![vertex, fragment]);
        if let Err(error) = attached {
            fs_shdr.delete_shader(gl);
            vs_shdr.delete_shader(gl);
            proof {
                let build = generation::<D::Scalar>(vs, fs, gs, told);
                assert(build == s6);
                assert(build.releases() == both);
                assert(gl.history() == start + (build.run.trace + build.releases()));
            }
            return Err(ShaderCompileError::OpenGLError(error));
        }
        let ghost staged = with_vertex.with_stage(fragment);
        assert(shdr_prog@ == staged);

        match gs_lines {
            None => {
                let (linked, Ghost(heard)) = CompiledShaderProgram::link_watched(gl, shdr_prog);
                proof {
                    told = AssemblyReport { link_status: heard.0, link_log: heard.1, ..told };
                }
                let ghost s7 = s6.followed_by(Build::step(staged.linking(heard.0, heard.1)));
                assert(gl.history() == start + s7.run.trace);
                assert(s7.opened == seq![vertex, fragment]);
                let outcome = match linked {
                    Ok(program) => Ok(program),
                    Err((error, _)) => Err(ShaderCompileError::OpenGLError(error)),
                };
                fs_shdr.delete_shader(gl);
                vs_shdr.delete_shader(gl);
                proof {
                    let build = generation::<D::Scalar>(vs, fs, gs, told);
                    assert(build == s7);
                    assert(build.releases() == both);
                    assert(gl.history() == start + (build.run.trace + build.releases()));
                }
                outcome
            },
            Some(gs_file) => {
                let ghost file = gs_file;
                let gs_shdr = match Shader::from_path(gl, gs_file, ShaderType::GeometryShader) {
                    Ok(stage) => stage,
                    Err(error) => {
                        fs_shdr.delete_shader(gl);
                        vs_shdr.delete_shader(gl);
                        proof {
                            let build = generation::<D::Scalar>(vs, fs, gs, told);
                            assert(build.run.trace == s6.run.trace);
                            assert(build.opened == seq![vertex, fragment]);
                            assert(build.releases() == both);
                            assert(gl.history() == start + (build.run.trace + build.releases()));
                        }
                        return Err(ShaderCompileError::IOError(error));
                    },
                };
                let ghost geometry = gs_shdr@;
                assert(geometry == file_stage(ShaderType::GeometryShader, file, geometry.id));
                let ghost s7 = s6.followed_by(Build::loading(file, geometry));
                assert(gl.history() == start + s7.run.trace);
                assert(s7.opened == seq![vertex, fragment, geometry]);
                let ghost all = geometry.release::<D::Scalar>() + both;

                let (attached, Ghost(heard)) = shdr_prog.attach_watched(gl, &gs_shdr);
                proof {
                    told = AssemblyReport {
                        geometry: StageReport {
                            id: geometry.id,
                            attach_status: heard.0,
                            attach_log: heard.1,
                            ..blank
                        },
                        ..told
                    };
                    assert(!staged.has_stage(geometry.kind));
                }
                let ghost s8 = s7.followed_by(
                    Build::step(staged.attachment(geometry, heard.0, heard.1)),
                );
                assert(gl.history() == start + s8.run.trace);
                assert(s8.opened == seq![vertex, fragment, geometry]);
                if let Err(error) = attached {
                    gs_shdr.delete_shader(gl);
                    fs_shdr.delete_shader(gl);
                    vs_shdr.delete_shader(gl);
                    proof {
                        let build = generation::<D::Scalar>(vs, fs, gs, told);
                        assert(build == s8);
                        assert(build.releases() == all);
                        assert(gl.history() == start + (build.run.trace + build.releases()));
                    }
                    return Err(ShaderCompileError::OpenGLError(error));
                }
                let ghost complete = staged.with_stage(geometry);
                assert(shdr_prog@ == complete);

                let (linked, Ghost(heard)) = CompiledShaderProgram::link_watched(gl, shdr_prog);
                proof {
                    told = AssemblyReport { link_status: heard.0, link_log: heard.1, ..told };
                }
                let ghost s9 = s8.followed_by(Build::step(complete.linking(heard.0, heard.1)));
                assert(gl.history() == start + s9.run.trace);
                assert(s9.opened == seq![vertex, fragment, geometry]);
                let outcome = match linked {
                    Ok(program) => Ok(program),
                    Err((error, _)) => Err(ShaderCompileError::OpenGLError(error)),
                };
                gs_shdr.delete_shader(gl);
                fs_shdr.delete_shader(gl);
                vs_shdr.delete_shader(gl);
                proof {
                    let build = generation::<D::Scalar>(vs, fs, gs, told);
                    assert(build == s9);
                    assert(build.releases() == all);
                    assert(gl.history() == start + (build.run.trace + build.releases()));
                }
                outcome
            },
        }
    }
}

/// A link that fails detaches no stage: the program is linked, the status
/// and the log are read, and the failure holds the log, cut to no more than
/// [`LOG_CAPACITY`] characters. What the link adds to the history and how it
/// fails depends on nothing but the program and what the driver reports.
pub proof fn lemma_failed_link_detaches_nothing<F>(program: Assembly, status: i32, log: Seq<char>)
    requires
        status != STATUS_TRUE,
    ensures
        program.linking::<F>(status, log).failure == Some(
            OpenGLFailure::LinkerError(capped(log)),
        ),
        program.linking::<F>(status, log).trace == seq![
            sent::<F>(Command::LinkProgram { program: program.id }),
            got_signed(Command::GetLinkStatus { program: program.id }, status),
            got_text(
                Command::GetProgramInfoLog { program: program.id, capacity: LOG_CAPACITY },
                log,
            ),
        ],
        capped(log).len() <= LOG_CAPACITY,
        capped(log).is_prefix_of(log),
{
}

} // verus!
