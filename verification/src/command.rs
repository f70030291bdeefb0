//! Commands: which program to run, with which arguments, in which environment.
//!
//! Every component is kept as the byte string that the operating system
//! will be handed, and none of them may hold a zero byte.

use crate::launch::Launch;
use vstd::prelude::*;
use vstd::string::StringSliceAdditionalSpecFns;

verus! {

/// Which of the two output streams of a child a line came from.
#[derive(Debug, Eq, PartialEq, Hash, Copy, Clone, Structural)]
pub enum StdioType {
    Stdout,
    Stderr,
}

/// Why no child came to be.
#[derive(Debug, Clone, Copy, PartialEq, Eq, Structural)]
pub enum SpawnError {
    /// A pseudo-terminal pair could not be opened; the field is the error number.
    AllocationFailure(i32),
    /// The process could not be forked; the field is the error number.
    ForkFailure(i32),
    /// The program path, an argument or a part of the environment holds a
    /// zero byte.
    EncodingFailure,
}

/// The byte that stands between the key and the value of an environment entry: `=`.
pub const KEY_VALUE_SEPARATOR: u8 = 0x3d;

/// No byte of `bytes` is zero.
pub open spec fn nul_free(bytes: Seq<u8>) -> bool {
    forall|i: int| 0 <= i < bytes.len() ==> bytes[i] != 0
}

/// No byte of any of `items` is zero.
pub open spec fn all_nul_free(items: Seq<Seq<u8>>) -> bool {
    forall|i: int| 0 <= i < items.len() ==> nul_free(#[trigger] items[i])
}

/// The byte strings that a sequence of buffers holds.
pub open spec fn byte_views(buffers: Seq<Vec<u8>>) -> Seq<Seq<u8>> {
    buffers.map_values(|b: Vec<u8>| b@)
}

/// The byte strings that a sequence of texts is encoded as.
pub open spec fn text_bytes(texts: Seq<&str>) -> Seq<Seq<u8>> {
    texts.map_values(|t: &str| t.spec_bytes())
}

/// Whether no byte of `bytes` is zero.
pub fn is_nul_free(bytes: &[u8]) -> (b: bool)
    ensures
        b == nul_free(bytes@),
{
    let mut i: usize = 0;
    while i < bytes.len()
        invariant
            i <= bytes@.len(),
            forall|k: int| 0 <= k < i ==> bytes@[k] != 0,
        decreases bytes@.len() - i,
    {
        if bytes[i] == 0 {
            return false;
        }
        i = i + 1;
    }
    true
}

/// One entry of the environment.
#[derive(Debug)]
pub struct EnvVar {
    key: Vec<u8>,
    value: Vec<u8>,
}

/// One entry of the environment as plain values.
pub struct EnvVarView {
    pub key: Seq<u8>,
    pub value: Seq<u8>,
}

impl EnvVarView {
    /// The entry as the operating system takes it: the key, `=`, the value.
    pub open spec fn entry(self) -> Seq<u8> {
        self.key + seq![KEY_VALUE_SEPARATOR] + self.value
    }

    /// Neither the key nor the value holds a zero byte.
    pub open spec fn encodable(self) -> bool {
        nul_free(self.key) && nul_free(self.value)
    }
}

impl View for EnvVar {
    type V = EnvVarView;

    closed spec fn view(&self) -> EnvVarView {
        EnvVarView { key: self.key@, value: self.value@ }
    }
}

/// The entries that a sequence of environment variables holds.
pub open spec fn env_views(vars: Seq<EnvVar>) -> Seq<EnvVarView> {
    vars.map_values(|v: EnvVar| v@)
}

/// A command as plain values.
pub struct CommandView {
    /// The path of the program.
    pub command: Seq<u8>,
    /// The arguments behind the program's own name, in their order.
    pub args: Seq<Seq<u8>>,
    /// The environment.
    pub env: Seq<EnvVarView>,
}

impl CommandView {
    /// The arguments and the environment hold no zero byte. Of the program
    /// path this is asked only when the command is run.
    pub open spec fn parts_encodable(self) -> bool {
        &&& all_nul_free(self.args)
        &&& forall|i: int| 0 <= i < self.env.len() ==> (#[trigger] self.env[i]).encodable()
    }

    /// The argument vector of the program: its own path, then the arguments.
    pub open spec fn argv(self) -> Seq<Seq<u8>> {
        seq![self.command] + self.args
    }

    /// The environment of the program, one `key=value` entry for each variable.
    pub open spec fn envp(self) -> Seq<Seq<u8>> {
        self.env.map_values(|v: EnvVarView| v.entry())
    }
}

/// What replaces the process image of the child: built before the fork, so
/// that the child has nothing left to allocate.
#[derive(Debug)]
pub struct ExecImage {
    /// The path of the program.
    pub program: Vec<u8>,
    /// The argument vector, the program's own path first.
    pub argv: Vec<Vec<u8>>,
    /// The environment, one `key=value` entry each.
    pub envp: Vec<Vec<u8>>,
}

/// An image as plain values.
pub struct ExecImageView {
    pub program: Seq<u8>,
    pub argv: Seq<Seq<u8>>,
    pub envp: Seq<Seq<u8>>,
}

impl View for ExecImage {
    type V = ExecImageView;

    open spec fn view(&self) -> ExecImageView {
        ExecImageView {
            program: self.program@,
            argv: byte_views(self.argv@),
            envp: byte_views(self.envp@),
        }
    }
}

impl ExecImageView {
    /// No buffer of the image holds a zero byte.
    pub open spec fn encodable(self) -> bool {
        nul_free(self.program) && all_nul_free(self.argv) && all_nul_free(self.envp)
    }
}

/// The image that a command with the given parts is run from.
pub open spec fn image_of(c: CommandView) -> ExecImageView {
    ExecImageView { program: c.command, argv: c.argv(), envp: c.envp() }
}

/// A command that can be run.
#[derive(Debug)]
pub struct XCommand {
    command: Vec<u8>,
    args: Vec<Vec<u8>>,
    env: Vec<EnvVar>,
}

impl View for XCommand {
    type V = CommandView;

    closed spec fn view(&self) -> CommandView {
        CommandView {
            command: self.command@,
            args: byte_views(self.args@),
            env: env_views(self.env@),
        }
    }
}

/// Collects the parts of a command.
pub struct XCommandBuilder {
    command: Vec<u8>,
    args: Vec<Vec<u8>>,
    env: Vec<EnvVar>,
}

impl View for XCommandBuilder {
    type V = CommandView;

    closed spec fn view(&self) -> CommandView {
        CommandView {
            command: self.command@,
            args: byte_views(self.args@),
            env: env_views(self.env@),
        }
    }
}

/// The byte strings of a sequence of buffers with one more behind them.
proof fn lemma_byte_views_push(buffers: Seq<Vec<u8>>, last: Vec<u8>)
    ensures
        byte_views(buffers.push(last)) == byte_views(buffers).push(last@),
{
    assert(byte_views(buffers.push(last)) =~= byte_views(buffers).push(last@));
}

/// A copy of `bytes`.
fn copy_bytes(bytes: &[u8]) -> (out: Vec<u8>)
    ensures
        out@ == bytes@,
{
    let mut out: Vec<u8> = Vec::with_capacity(bytes.len());
    let mut i: usize = 0;
    while i < bytes.len()
        invariant
            i <= bytes@.len(),
            out@ == bytes@.take(i as int),
        decreases bytes@.len() - i,
    {
        out.push(bytes[i]);
        proof {
            assert(bytes@.take(i as int).push(bytes@[i as int]) =~= bytes@.take(i + 1));
        }
        i = i + 1;
    }
    proof {
        assert(bytes@.take(bytes@.len() as int) =~= bytes@);
    }
    out
}

impl XCommandBuilder {
    #[verifier::type_invariant]
    spec fn parts_encodable(self) -> bool {
        self@.parts_encodable()
    }

    /// Starts a command that runs the program at the path `command`, with
    /// no arguments and an empty environment.
    pub fn new(command: &[u8]) -> (b: XCommandBuilder)
        ensures
            b@ == (CommandView { command: command@, args: Seq::empty(), env: Seq::empty() }),
    {
        let b = XCommandBuilder { command: copy_bytes(command), args: Vec::new(), env: Vec::new() };
        proof {
            assert(byte_views(b.args@) =~= Seq::empty());
            assert(env_views(b.env@) =~= Seq::empty());
        }
        b
    }

    /// Adds one argument behind those that are there. An argument with a
    /// zero byte in it is refused.
    pub fn arg(self, arg: &str) -> (r: Result<XCommandBuilder, SpawnError>)
        ensures
            match r {
                Ok(b) => {
                    &&& nul_free(arg.spec_bytes())
                    &&& b@ == (CommandView { args: self@.args.push(arg.spec_bytes()), ..self@ })
                },
                Err(e) => e == SpawnError::EncodingFailure && !nul_free(arg.spec_bytes()),
            },
    {
        let bytes = arg.as_bytes_vec();
        if !is_nul_free(bytes.as_slice()) {
            return Err(SpawnError::EncodingFailure);
        }
        proof {
            use_type_invariant(&self);
        }
        let XCommandBuilder { command, args, env } = self;
        let mut args = args;
        args.push(bytes);
        proof {
            assert(byte_views(args@) =~= self@.args.push(arg.spec_bytes()));
        }
        Ok(XCommandBuilder { command, args, env })
    }

    /// Sets the arguments, in place of any that are there. If one of them
    /// holds a zero byte, all are refused.
    pub fn args(self, args: &[&str]) -> (r: Result<XCommandBuilder, SpawnError>)
        ensures
            match r {
                Ok(b) => {
                    &&& all_nul_free(text_bytes(args@))
                    &&& b@ == (CommandView { args: text_bytes(args@), ..self@ })
                },
                Err(e) => e == SpawnError::EncodingFailure && !all_nul_free(text_bytes(args@)),
            },
    {
        let mut encoded: Vec<Vec<u8>> = Vec::with_capacity(args.len());
        let mut i: usize = 0;
        while i < args.len()
            invariant
                i <= args@.len(),
                byte_views(encoded@) == text_bytes(args@).take(i as int),
                all_nul_free(byte_views(encoded@)),
            decreases args@.len() - i,
        {
            let bytes = args[i].as_bytes_vec();
            if !is_nul_free(bytes.as_slice()) {
                proof {
                    assert(text_bytes(args@)[i as int] == bytes@);
                }
                return Err(SpawnError::EncodingFailure);
            }
            proof {
                lemma_byte_views_push(encoded@, bytes);
                assert(text_bytes(args@).take(i as int).push(bytes@) =~= text_bytes(args@).take(
                    i + 1,
                ));
            }
            encoded.push(bytes);
            i = i + 1;
        }
        proof {
            use_type_invariant(&self);
            assert(text_bytes(args@).take(args@.len() as int) =~= text_bytes(args@));
        }
        let XCommandBuilder { command, args: _, env } = self;
        Ok(XCommandBuilder { command, args: encoded, env })
    }

    /// Adds one variable to the environment, behind those that are there. A
    /// key or a value with a zero byte in it is refused.
    pub fn env(self, key: &str, value: &str) -> (r: Result<XCommandBuilder, SpawnError>)
        ensures
            match r {
                Ok(b) => {
                    &&& nul_free(key.spec_bytes())
                    &&& nul_free(value.spec_bytes())
                    &&& b@ == (CommandView {
                        env: self@.env.push(
                            EnvVarView { key: key.spec_bytes(), value: value.spec_bytes() },
                        ),
                        ..self@
                    })
                },
                Err(e) => {
                    &&& e == SpawnError::EncodingFailure
                    &&& !(nul_free(key.spec_bytes()) && nul_free(value.spec_bytes()))
                },
            },
    {
        let key_bytes = key.as_bytes_vec();
        let value_bytes = value.as_bytes_vec();
        if !is_nul_free(key_bytes.as_slice()) || !is_nul_free(value_bytes.as_slice()) {
            return Err(SpawnError::EncodingFailure);
        }
        proof {
            use_type_invariant(&self);
        }
        let XCommandBuilder { command, args, env } = self;
        let mut env = env;
        let var = EnvVar { key: key_bytes, value: value_bytes };
        env.push(var);
        proof {
            assert(env_views(env@) =~= self@.env.push(
                EnvVarView { key: key.spec_bytes(), value: value.spec_bytes() },
            ));
        }
        Ok(XCommandBuilder { command, args, env })
    }

    /// The command with the parts collected so far.
    pub fn build(self) -> (c: XCommand)
        ensures
            c@ == self@,
    {
        proof {
            use_type_invariant(&self);
        }
        let XCommandBuilder { command, args, env } = self;
        XCommand { command, args, env }
    }
}

impl XCommand {
    #[verifier::type_invariant]
    spec fn parts_encodable(self) -> bool {
        self@.parts_encodable()
    }

    /// Starts a command that runs the program at the path `command`.
    pub fn builder(command: &[u8]) -> (b: XCommandBuilder)
        ensures
            b@ == (CommandView { command: command@, args: Seq::empty(), env: Seq::empty() }),
    {
        XCommandBuilder::new(command)
    }

    /// Builds the buffers that the child is run from: the program path, the
    /// argument vector with the path in front, and one `key=value` entry
    /// for each variable of the environment. A path with a zero byte in it
    /// is refused; nothing else can fail.
    pub fn marshal(&self) -> (r: Result<ExecImage, SpawnError>)
        ensures
            match r {
                Ok(image) => {
                    &&& nul_free(self@.command)
                    &&& image@ == image_of(self@)
                    &&& image@.encodable()
                },
                Err(e) => e == SpawnError::EncodingFailure && !nul_free(self@.command),
            },
    {
        if !is_nul_free(self.command.as_slice()) {
            return Err(SpawnError::EncodingFailure);
        }
        proof {
            use_type_invariant(self);
        }
        let mut argv: Vec<Vec<u8>> = Vec::with_capacity(self.args.len());
        argv.push(copy_bytes(self.command.as_slice()));
        let mut i: usize = 0;
        while i < self.args.len()
            invariant
                i <= self.args@.len(),
                byte_views(argv@) == seq![self.command@] + byte_views(self.args@).take(i as int),
            decreases self.args@.len() - i,
        {
            let arg = copy_bytes(self.args[i].as_slice());
            proof {
                lemma_byte_views_push(argv@, arg);
                assert((seq![self.command@] + byte_views(self.args@).take(i as int)).push(arg@)
                    =~= seq![self.command@] + byte_views(self.args@).take(i + 1));
            }
            argv.push(arg);
            i = i + 1;
        }
        let mut envp: Vec<Vec<u8>> = Vec::with_capacity(self.env.len());
        let mut j: usize = 0;
        while j < self.env.len()
            invariant
                j <= self.env@.len(),
                byte_views(envp@) == self@.envp().take(j as int),
                self@.env == env_views(self.env@),
            decreases self.env@.len() - j,
        {
            let var = &self.env[j];
            let mut entry: Vec<u8> = copy_bytes(var.key.as_slice());
            entry.push(KEY_VALUE_SEPARATOR);
            let mut value = copy_bytes(var.value.as_slice());
            entry.append(&mut value);
            proof {
                assert(entry@ =~= var@.entry());
                lemma_byte_views_push(envp@, entry);
                assert(self@.env[j as int] == var@);
                assert(self@.envp().take(j as int).push(entry@) =~= self@.envp().take(j + 1));
            }
            envp.push(entry);
            j = j + 1;
        }
        let image = ExecImage { program: copy_bytes(self.command.as_slice()), argv, envp };
        proof {
            assert(byte_views(self.args@).take(self.args@.len() as int) =~= byte_views(
                self.args@,
            ));
            assert(self@.envp().take(self.env@.len() as int) =~= self@.envp());
            lemma_image_encodable(self@);
        }
        Ok(image)
    }

    /// Begins the launch of a child that runs this command. The buffers are
    /// built first: a path with a zero byte in it is refused here, before a
    /// pseudo-terminal is opened or a process is forked. Nothing has
    /// happened outside the program when this returns.
    pub fn spawn(&self) -> (r: Result<Launch, SpawnError>)
        ensures
            match r {
                Ok(launch) => {
                    &&& nul_free(self@.command)
                    &&& launch@ == crate::launch::LaunchView::begin(image_of(self@))
                },
                Err(e) => e == SpawnError::EncodingFailure && !nul_free(self@.command),
            },
    {
        match self.marshal() {
            Ok(image) => Ok(Launch::new(image)),
            Err(e) => Err(e),
        }
    }
}

/// The image of a command whose parts hold no zero byte holds none either.
pub proof fn lemma_image_encodable(c: CommandView)
    requires
        nul_free(c.command),
        c.parts_encodable(),
    ensures
        image_of(c).encodable(),
{
    assert forall|i: int| 0 <= i < c.argv().len() implies nul_free(#[trigger] c.argv()[i]) by {
        if i > 0 {
            assert(c.argv()[i] == c.args[i - 1]);
        }
    }
    assert forall|i: int| 0 <= i < c.envp().len() implies nul_free(#[trigger] c.envp()[i]) by {
        assert(c.env[i].encodable());
    }
}

} // verus!
