//! The commands that bpfctl takes, and what each load command means for
//! the daemon: the program type, the bytecode location and the attach point.
use vstd::prelude::*;
use vstd::utf8::{decode_utf8, encode_utf8, valid_utf8};
use crate::bpf::{
    ImagePullPolicy, ParseError, ProgramType, TcProceedOn, TcProceedOnEntry, XdpProceedOn,
    XdpProceedOnEntry, tc_from_names, xdp_from_names,
};
use crate::codec::{base64_decode_standard, base64_standard_decode, string_from_utf8, utf8_error_text};
use crate::messages::{
    AttachInfo, BytecodeImage, BytecodeLocation, Info, KprobeAttachInfo, Location, TcAttachInfo,
    TracepointAttachInfo, UprobeAttachInfo, XdpAttachInfo, copy_opt_string,
};
use crate::text::{split_once, split_once_exec};

verus! {

/// A global variable to set when the program is loaded: its name and the
/// bytes of its value.
#[derive(Debug)]
pub struct GlobalArg {
    pub name: String,
    pub value: Vec<u8>,
}

/// Where a program is attached.
#[derive(Debug)]
pub enum LoadCommands {
    Xdp { iface: String, priority: i32, proceed_on: Vec<String> },
    Tc { direction: String, iface: String, priority: i32, proceed_on: Vec<String> },
    Tracepoint { tracepoint: String },
    Kprobe { fn_name: String, offset: Option<u64>, retprobe: bool, namespace: Option<String> },
    Uprobe {
        fn_name: Option<String>,
        offset: Option<u64>,
        target: String,
        retprobe: bool,
        pid: Option<i32>,
        namespace: Option<String>,
    },
}

/// How a bytecode image is pulled.
#[derive(Debug)]
pub struct PullBytecodeArgs {
    pub image_url: String,
    pub registry_auth: Option<String>,
    pub pull_policy: String,
}

/// Loads a program from a local object file.
#[derive(Debug)]
pub struct LoadFileArgs {
    pub path: String,
    pub section_name: String,
    pub global: Option<Vec<GlobalArg>>,
    pub metadata: Option<Vec<(String, String)>>,
    pub map_owner_id: Option<u32>,
    pub command: LoadCommands,
}

/// Loads a program from a bytecode image.
#[derive(Debug)]
pub struct LoadImageArgs {
    pub pull_args: PullBytecodeArgs,
    pub section_name: String,
    pub global: Option<Vec<GlobalArg>>,
    pub metadata: Option<Vec<(String, String)>>,
    pub map_owner_id: Option<u32>,
    pub command: LoadCommands,
}

#[derive(Debug)]
pub struct UnloadArgs {
    pub id: u32,
}

/// Lists programs, optionally only those of a type or with some metadata.
#[derive(Debug)]
pub struct ListArgs {
    pub program_type: Option<ProgramType>,
    pub metadata_selector: Option<Vec<(String, String)>>,
    pub all: bool,
}

/// The commands of bpfctl.
#[derive(Debug)]
pub enum Commands {
    LoadFromFile(LoadFileArgs),
    LoadFromImage(LoadImageArgs),
    Unload(UnloadArgs),
    List(ListArgs),
    Get { id: u32 },
    PullBytecode(PullBytecodeArgs),
}

/// Why a command cannot be turned into a request.
#[derive(Debug, PartialEq, Eq)]
pub enum CommandError {
    /// A TC direction other than ingress and egress.
    InvalidDirection { direction: String },
    /// A "proceed on" action that does not exist.
    ProceedOn(ParseError),
    /// A namespace was given for a kprobe.
    KprobeNamespaceUnsupported,
    /// An offset was given for a kretprobe, which takes none.
    KretprobeOffsetUnsupported,
    /// A namespace was given for a uprobe.
    UprobeNamespaceUnsupported,
    /// The command does not load a program, so it has no bytecode location.
    UnknownCommand,
    /// The command does not load a program, so it has no attach point.
    UnknownAttachCommand,
    /// A pull policy that does not exist.
    PullPolicy(ParseError),
    /// The registry credentials are not valid base64; `reason` is the
    /// base64 decoder's own report.
    RegistryAuthNotBase64 { reason: String },
    /// The decoded registry credentials are not UTF-8 text; `reason` is the
    /// UTF-8 decoder's own report.
    RegistryAuthNotUtf8 { reason: String },
}

impl LoadCommands {
    /// The program type that the attach point calls for.
    pub open spec fn prog_type(self) -> ProgramType {
        match self {
            LoadCommands::Xdp { .. } => ProgramType::Xdp,
            LoadCommands::Tc { .. } => ProgramType::Tc,
            LoadCommands::Tracepoint { .. } => ProgramType::Tracepoint,
            LoadCommands::Kprobe { .. } => ProgramType::Probe,
            LoadCommands::Uprobe { .. } => ProgramType::Probe,
        }
    }

    /// The program type that the attach point calls for.
    pub fn get_prog_type(&self) -> (r: ProgramType)
        ensures
            r == self.prog_type(),
            (self is Kprobe || self is Uprobe) ==> r == ProgramType::Probe,
            self is Xdp ==> r == ProgramType::Xdp,
            self is Tc ==> r == ProgramType::Tc,
            self is Tracepoint ==> r == ProgramType::Tracepoint,
    {
        match self {
            LoadCommands::Xdp { .. } => ProgramType::Xdp,
            LoadCommands::Tc { .. } => ProgramType::Tc,
            LoadCommands::Tracepoint { .. } => ProgramType::Tracepoint,
            LoadCommands::Kprobe { .. } => ProgramType::Probe,
            LoadCommands::Uprobe { .. } => ProgramType::Probe,
        }
    }

    /// What the attach information built for this command is: the
    /// daemon's description of the attach point, or the error that the
    /// command's values give.
    pub open spec fn attach_outcome(self, r: Result<Option<AttachInfo>, CommandError>) -> bool {
        match self {
            LoadCommands::Xdp { iface, priority, proceed_on } => match xdp_from_names(proceed_on@) {
                Err(s) => r == Err::<Option<AttachInfo>, CommandError>(
                    CommandError::ProceedOn(ParseError::InvalidProceedOnName { proceedon: s }),
                ),
                Ok(es) => r matches Ok(Some(AttachInfo { info: Some(Info::XdpAttachInfo(x)) }))
                    && x.priority == priority && x.iface == iface && x.position == 0
                    && x.proceed_on@ == es.map_values(|e: XdpProceedOnEntry| e.code()),
            },
            LoadCommands::Tc { direction, iface, priority, proceed_on } => if direction@ != "ingress"@
                && direction@ != "egress"@ {
                r == Err::<Option<AttachInfo>, CommandError>(CommandError::InvalidDirection { direction })
            } else {
                match tc_from_names(proceed_on@) {
                    Err(s) => r == Err::<Option<AttachInfo>, CommandError>(
                        CommandError::ProceedOn(ParseError::InvalidProceedOnName { proceedon: s }),
                    ),
                    Ok(es) => r matches Ok(Some(AttachInfo { info: Some(Info::TcAttachInfo(x)) }))
                        && x.priority == priority && x.iface == iface && x.position == 0
                        && x.direction == direction
                        && x.proceed_on@ == es.map_values(|e: TcProceedOnEntry| e.code()),
                }
            },
            LoadCommands::Tracepoint { tracepoint } => r matches Ok(
                Some(AttachInfo { info: Some(Info::TracepointAttachInfo(x)) }),
            ) && x.tracepoint == tracepoint,
            LoadCommands::Kprobe { fn_name, offset, retprobe, namespace } => if namespace is Some {
                r == Err::<Option<AttachInfo>, CommandError>(CommandError::KprobeNamespaceUnsupported)
            } else if retprobe && offset is Some {
                r == Err::<Option<AttachInfo>, CommandError>(CommandError::KretprobeOffsetUnsupported)
            } else {
                r matches Ok(Some(AttachInfo { info: Some(Info::KprobeAttachInfo(x)) }))
                    && x.fn_name == fn_name && x.offset == (match offset {
                    Some(o) => o,
                    None => 0,
                }) && x.retprobe == retprobe && x.namespace is None
            },
            LoadCommands::Uprobe { fn_name, offset, target, retprobe, pid, namespace } => if namespace is Some {
                r == Err::<Option<AttachInfo>, CommandError>(CommandError::UprobeNamespaceUnsupported)
            } else {
                r matches Ok(Some(AttachInfo { info: Some(Info::UprobeAttachInfo(x)) }))
                    && x.fn_name == fn_name && x.offset == (match offset {
                    Some(o) => o,
                    None => 0,
                }) && x.target == target && x.retprobe == retprobe && x.pid == pid
                    && x.namespace is None
            },
        }
    }

    /// The daemon's description of this attach point.
    pub fn get_attach_type(&self) -> (r: Result<Option<AttachInfo>, CommandError>)
        ensures
            self.attach_outcome(r),
    {
        match self {
            LoadCommands::Xdp { iface, priority, proceed_on } => {
                let proc_on = match XdpProceedOn::from_strings(proceed_on) {
                    Ok(p) => p,
                    Err(e) => return Err(CommandError::ProceedOn(e)),
                };
                Ok(
                    Some(
                        AttachInfo {
                            info: Some(
                                Info::XdpAttachInfo(
                                    XdpAttachInfo {
                                        priority: *priority,
                                        iface: iface.clone(),
                                        position: 0,
                                        proceed_on: proc_on.as_action_vec(),
                                    },
                                ),
                            ),
                        },
                    ),
                )
            },
            LoadCommands::Tc { direction, iface, priority, proceed_on } => {
                let dir = direction.as_str();
                if !crate::text::str_eq(dir, "ingress") && !crate::text::str_eq(dir, "egress") {
                    return Err(CommandError::InvalidDirection { direction: direction.clone() });
                }
                let proc_on = match TcProceedOn::from_strings(proceed_on) {
                    Ok(p) => p,
                    Err(e) => return Err(CommandError::ProceedOn(e)),
                };
                Ok(
                    Some(
                        AttachInfo {
                            info: Some(
                                Info::TcAttachInfo(
                                    TcAttachInfo {
                                        priority: *priority,
                                        iface: iface.clone(),
                                        position: 0,
                                        direction: direction.clone(),
                                        proceed_on: proc_on.as_action_vec(),
                                    },
                                ),
                            ),
                        },
                    ),
                )
            },
            LoadCommands::Tracepoint { tracepoint } => {
                Ok(
                    Some(
                        AttachInfo {
                            info: Some(
                                Info::TracepointAttachInfo(
                                    TracepointAttachInfo { tracepoint: tracepoint.clone() },
                                ),
                            ),
                        },
                    ),
                )
            },
            LoadCommands::Kprobe { fn_name, offset, retprobe, namespace } => {
                if namespace.is_some() {
                    return Err(CommandError::KprobeNamespaceUnsupported);
                }
                if *retprobe && offset.is_some() {
                    return Err(CommandError::KretprobeOffsetUnsupported);
                }
                let offset = match offset {
                    Some(o) => *o,
                    None => 0,
                };
                Ok(
                    Some(
                        AttachInfo {
                            info: Some(
                                Info::KprobeAttachInfo(
                                    KprobeAttachInfo {
                                        fn_name: fn_name.clone(),
                                        offset,
                                        retprobe: *retprobe,
                                        namespace: None,
                                    },
                                ),
                            ),
                        },
                    ),
                )
            },
            LoadCommands::Uprobe { fn_name, offset, target, retprobe, pid, namespace } => {
                if namespace.is_some() {
                    return Err(CommandError::UprobeNamespaceUnsupported);
                }
                let offset = match offset {
                    Some(o) => *o,
                    None => 0,
                };
                Ok(
                    Some(
                        AttachInfo {
                            info: Some(
                                Info::UprobeAttachInfo(
                                    UprobeAttachInfo {
                                        fn_name: copy_opt_string(fn_name),
                                        offset,
                                        target: target.clone(),
                                        retprobe: *retprobe,
                                        pid: *pid,
                                        namespace: None,
                                    },
                                ),
                            ),
                        },
                    ),
                )
            },
        }
    }
}

} // verus!

verus! {

/// Decoded credentials on which reading them cannot go on: UTF-8 text
/// without the ':' that separates user name and password.
pub open spec fn credentials_unusable(bytes: Seq<u8>) -> bool {
    valid_utf8(bytes) && split_once(decode_utf8(bytes), ':') is None
}

/// What the user name and password in the decoded credentials `bytes` are:
/// the text before the first ':' and all the text after it; or, where the
/// bytes are not UTF-8, that error with the decoder's report.
pub open spec fn credentials_outcome(bytes: Seq<u8>, r: Result<(String, String), CommandError>) -> bool {
    if !valid_utf8(bytes) {
        r matches Err(CommandError::RegistryAuthNotUtf8 { reason }) && reason@ == utf8_error_text(bytes)
    } else {
        match split_once(decode_utf8(bytes), ':') {
            Some((user, pass)) => r matches Ok((u, w)) && u@ == user && w@ == pass,
            None => false,
        }
    }
}

/// Reads the user name and password out of decoded credentials, the bytes
/// of "<username>:<password>".
pub fn credentials_from_bytes(bytes: Vec<u8>) -> (r: Result<(String, String), CommandError>)
    requires
        !credentials_unusable(bytes@),
    ensures
        credentials_outcome(bytes@, r),
{
    let ghost b = bytes@;
    let text = match string_from_utf8(bytes) {
        Ok(s) => s,
        Err(reason) => return Err(CommandError::RegistryAuthNotUtf8 { reason }),
    };
    match split_once_exec(text.as_str(), ':') {
        Some(pair) => Ok(pair),
        None => {
            assert(credentials_unusable(b));
            Err(CommandError::RegistryAuthNotUtf8 { reason: String::new() })
        },
    }
}

/// Credentials written as the UTF-8 bytes of a user name without ':', then
/// ':', then any password (which may itself hold ':'), read back as that
/// user name and that password.
pub proof fn law_credentials_roundtrip(
    user: Seq<char>,
    pass: Seq<char>,
    r: Result<(String, String), CommandError>,
)
    requires
        !user.contains(':'),
        credentials_outcome(encode_utf8(user + seq![':'] + pass), r),
    ensures
        r matches Ok((u, w)) && u@ == user && w@ == pass,
{
    let text = user + seq![':'] + pass;
    vstd::utf8::encode_utf8_valid_utf8(text);
    vstd::utf8::encode_utf8_decode_utf8(text);
    crate::text::lemma_find_char(user, ':');
    crate::text::lemma_find_char_at(text, ':', user.len() as int);
    assert(text.take(user.len() as int) =~= user);
    assert(text.skip(user.len() as int + 1) =~= pass);
}

/// The values on which building the image description cannot go on: the
/// pull policy is known and the credentials decode to text without the ':'
/// that separates user name and password.
pub open spec fn image_args_unusable(value: PullBytecodeArgs) -> bool {
    &&& ImagePullPolicy::of_name(value.pull_policy@) is Some
    &&& value.registry_auth matches Some(a) && base64_standard_decode(a@) matches Ok(b)
        && credentials_unusable(b)
}

/// The image at `url`, pulled by policy `p`, with the given credentials.
pub open spec fn image_is(img: BytecodeImage, url: String, p: ImagePullPolicy, user: Seq<char>, pass: Seq<char>) -> bool {
    &&& img.url == url
    &&& img.image_pull_policy == p.code()
    &&& img.username matches Some(u) && u@ == user
    &&& img.password matches Some(w) && w@ == pass
}

/// What the image description built from `value` is: the URL and the pull
/// policy's code, and the user name and password that the credentials
/// hold (both empty without credentials): in the base64 decoding, the
/// text before the first ':' and all the text after it. Or the first error among an unknown pull
/// policy, credentials that are not base64, and decoded credentials that
/// are not UTF-8, the last two with the decoder's report.
pub open spec fn image_outcome(value: PullBytecodeArgs, r: Result<BytecodeImage, CommandError>) -> bool {
    match ImagePullPolicy::of_name(value.pull_policy@) {
        None => r matches Err(CommandError::PullPolicy(ParseError::InvalidPullPolicyName { pull_policy }))
            && pull_policy@ == value.pull_policy@,
        Some(p) => match value.registry_auth {
            None => r matches Ok(img) && image_is(img, value.image_url, p, Seq::empty(), Seq::empty()),
            Some(a) => match base64_standard_decode(a@) {
                Err(t) => r matches Err(CommandError::RegistryAuthNotBase64 { reason }) && reason@ == t,
                Ok(b) => if !valid_utf8(b) {
                    r matches Err(CommandError::RegistryAuthNotUtf8 { reason }) && reason@ == utf8_error_text(b)
                } else {
                    match split_once(decode_utf8(b), ':') {
                        Some((user, pass)) => r matches Ok(img) && image_is(img, value.image_url, p, user, pass),
                        None => false,
                    }
                },
            },
        },
    }
}

impl BytecodeImage {
    /// The image description that the pull arguments give. The credentials
    /// are base64 of "<username>:<password>".
    pub fn try_from_pull_args(value: &PullBytecodeArgs) -> (r: Result<BytecodeImage, CommandError>)
        requires
            !image_args_unusable(*value),
        ensures
            image_outcome(*value, r),
    {
        let pull_policy = match ImagePullPolicy::try_from_name(value.pull_policy.as_str()) {
            Ok(p) => p,
            Err(e) => return Err(CommandError::PullPolicy(e)),
        };
        let (username, password) = match &value.registry_auth {
            Some(a) => {
                let auth_raw = match base64_decode_standard(a.as_str()) {
                    Ok(b) => b,
                    Err(reason) => return Err(CommandError::RegistryAuthNotBase64 { reason }),
                };
                match credentials_from_bytes(auth_raw) {
                    Ok(pair) => pair,
                    Err(e) => return Err(e),
                }
            },
            None => (String::new(), String::new()),
        };
        let img = BytecodeImage {
            url: value.image_url.clone(),
            image_pull_policy: pull_policy.as_i32(),
            username: Some(username),
            password: Some(password),
        };
        assert(image_is(img, value.image_url, pull_policy, username@, password@));
        Ok(img)
    }

    /// The image description that the pull arguments give, or none where
    /// the decoded credentials hold no ':' and so no password.
    pub fn checked_from_pull_args(value: &PullBytecodeArgs) -> (r: Option<Result<BytecodeImage, CommandError>>)
        ensures
            r is None <==> image_args_unusable(*value),
            r matches Some(res) ==> image_outcome(*value, res),
    {
        if image_args_usable(value) {
            Some(BytecodeImage::try_from_pull_args(value))
        } else {
            None
        }
    }
}

/// Whether the pull arguments can be turned into an image description.
pub fn image_args_usable(value: &PullBytecodeArgs) -> (r: bool)
    ensures
        r == !image_args_unusable(*value),
{
    if ImagePullPolicy::try_from_name(value.pull_policy.as_str()).is_err() {
        return true;
    }
    match &value.registry_auth {
        None => true,
        Some(a) => match base64_decode_standard(a.as_str()) {
            Err(_) => true,
            Ok(b) => match string_from_utf8(b) {
                Err(_) => true,
                Ok(text) => split_once_exec(text.as_str(), ':').is_some(),
            },
        },
    }
}

} // verus!

verus! {

impl Commands {
    /// The command loads from an image whose pull arguments cannot be used.
    pub open spec fn unusable(self) -> bool {
        match self {
            Commands::LoadFromImage(l) => image_args_unusable(l.pull_args),
            _ => false,
        }
    }

    /// What the bytecode location of this command is: the file for a load
    /// from a file, the image for a load from an image.
    pub open spec fn location_outcome(self, r: Result<Option<BytecodeLocation>, CommandError>) -> bool {
        match self {
            Commands::LoadFromFile(l) => r matches Ok(Some(BytecodeLocation { location: Some(Location::File(p)) }))
                && p == l.path,
            Commands::LoadFromImage(l) => match r {
                Ok(Some(BytecodeLocation { location: Some(Location::Image(img)) })) => image_outcome(
                    l.pull_args,
                    Ok(img),
                ),
                Err(e) => image_outcome(l.pull_args, Err(e)),
                _ => false,
            },
            _ => r == Err::<Option<BytecodeLocation>, CommandError>(CommandError::UnknownCommand),
        }
    }

    /// Where the bytecode of a load command is found.
    pub fn get_bytecode_location(&self) -> (r: Result<Option<BytecodeLocation>, CommandError>)
        requires
            !self.unusable(),
        ensures
            self.location_outcome(r),
    {
        match self {
            Commands::LoadFromFile(l) => Ok(
                Some(BytecodeLocation { location: Some(Location::File(l.path.clone())) }),
            ),
            Commands::LoadFromImage(l) => {
                let img = BytecodeImage::try_from_pull_args(&l.pull_args);
                match img {
                    Ok(i) => Ok(Some(BytecodeLocation { location: Some(Location::Image(i)) })),
                    Err(e) => Err(e),
                }
            },
            _ => Err(CommandError::UnknownCommand),
        }
    }

    /// What the attach information of this command is.
    pub open spec fn attach_info_outcome(self, r: Result<Option<AttachInfo>, CommandError>) -> bool {
        match self {
            Commands::LoadFromFile(l) => l.command.attach_outcome(r),
            Commands::LoadFromImage(l) => l.command.attach_outcome(r),
            _ => r == Err::<Option<AttachInfo>, CommandError>(CommandError::UnknownAttachCommand),
        }
    }

    /// Where a load command attaches its program.
    pub fn get_attach_info(&self) -> (r: Result<Option<AttachInfo>, CommandError>)
        ensures
            self.attach_info_outcome(r),
    {
        match self {
            Commands::LoadFromFile(l) => l.command.get_attach_type(),
            Commands::LoadFromImage(l) => l.command.get_attach_type(),
            _ => Err(CommandError::UnknownAttachCommand),
        }
    }
}

} // verus!
