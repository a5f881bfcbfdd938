//! The protocol between an action and the host that carries its requests out.
//!
//! An action never touches the machine. It asks: each [`Request`] names one
//! operation of the host, and the host answers with one [`Reply`]. What the
//! action decides is a function of the replies it has had so far.

use vstd::prelude::*;
use vstd::string::*;

verus! {

/// The texts that a list of strings holds, in order.
pub open spec fn texts(list: Seq<String>) -> Seq<Seq<char>> {
    list.map_values(|s: String| s@)
}

/// Appends a copy of `text` to `list`.
pub fn push_text(list: &mut Vec<String>, text: &str)
    ensures
        texts(final(list)@) == texts(old(list)@).push(text@),
{
    list.push(String::from_str(text));
    assert(texts(list@) =~= texts(old(list)@).push(text@));
}

/// A copy of `list`.
pub fn copy_texts(list: &Vec<String>) -> (copy: Vec<String>)
    ensures
        texts(copy@) == texts(list@),
{
    let mut copy: Vec<String> = Vec::new();
    let mut i: usize = 0;
    while i < list.len()
        invariant
            i <= list.len(),
            texts(copy@) == texts(list@.take(i as int)),
        decreases list.len() - i,
    {
        let ghost before = copy@;
        copy.push(list[i].clone());
        i += 1;
        assert(list@.take(i as int) == list@.take(i - 1).push(list@[i - 1]));
        assert(texts(before.push(list@[i - 1])) =~= texts(before).push(list@[i - 1]@));
        assert(texts(list@.take(i - 1).push(list@[i - 1])) =~= texts(list@.take(i - 1)).push(
            list@[i - 1]@,
        ));
    }
    assert(list@.take(list.len() as int) == list@);
    copy
}

/// A path on the host, named by how it is derived from configured text: the
/// host makes `base` absolute, descends into each of `children` in turn and,
/// where `suffix` is not empty, appends it to the last name of the path.
#[derive(Debug, Clone, PartialEq, Eq)]
pub struct Location {
    pub base: String,
    pub children: Vec<String>,
    pub suffix: String,
}

/// A [`Location`] as a mathematical value.
pub struct SpecLocation {
    pub base: Seq<char>,
    pub children: Seq<Seq<char>>,
    pub suffix: Seq<char>,
}

impl SpecLocation {
    /// The path that `base` names.
    pub open spec fn at(base: Seq<char>) -> SpecLocation {
        SpecLocation { base, children: Seq::empty(), suffix: Seq::empty() }
    }

    /// The entry `name` below this path.
    pub open spec fn child(self, name: Seq<char>) -> SpecLocation {
        SpecLocation { children: self.children.push(name), ..self }
    }

    /// This path with `suffix` appended to its last name.
    pub open spec fn with_suffix(self, suffix: Seq<char>) -> SpecLocation {
        SpecLocation { suffix: self.suffix + suffix, ..self }
    }
}

impl View for Location {
    type V = SpecLocation;

    open spec fn view(&self) -> SpecLocation {
        SpecLocation { base: self.base@, children: texts(self.children@), suffix: self.suffix@ }
    }
}

impl Location {
    /// The path that `base` names.
    pub fn at(base: String) -> (location: Location)
        ensures
            location@ == SpecLocation::at(base@),
    {
        let location = Location { base, children: Vec::new(), suffix: String::new() };
        assert(location@.children =~= Seq::<Seq<char>>::empty());
        location
    }

    /// The entry `name` below this path.
    pub fn child(&self, name: &str) -> (location: Location)
        ensures
            location@ == self@.child(name@),
    {
        let mut children = copy_texts(&self.children);
        push_text(&mut children, name);
        Location { base: self.base.clone(), children, suffix: self.suffix.clone() }
    }

    /// This path with `suffix` appended to its last name.
    pub fn with_suffix(&self, suffix: &str) -> (location: Location)
        ensures
            location@ == self@.with_suffix(suffix@),
    {
        let mut longer = self.suffix.clone();
        longer.append(suffix);
        Location { base: self.base.clone(), children: copy_texts(&self.children), suffix: longer }
    }

    /// A copy of this path.
    pub fn duplicate(&self) -> (location: Location)
        ensures
            location@ == self@,
    {
        Location {
            base: self.base.clone(),
            children: copy_texts(&self.children),
            suffix: self.suffix.clone(),
        }
    }
}

/// One operation that an action asks of the host.
#[derive(Debug, Clone, PartialEq, Eq)]
pub enum Request {
    /// Run `program` with `args`, in `dir` where one is given, with its
    /// standard output suppressed, and wait for it to end.
    Run { program: String, args: Vec<String>, dir: Option<Location> },
    /// Fetch `url` with a blocking GET.
    Get { url: String },
    /// Does `path` exist?
    Exists { path: Location },
    /// Is `path` itself a symbolic link?
    IsSymlink { path: Location },
    /// Rename `from` to `to`.
    Rename { from: Location, to: Location },
    /// Remove the file or link at `path`.
    Remove { path: Location },
    /// Create at `dest` a hard link to `src`.
    HardLink { src: Location, dest: Location },
    /// Create at `dest` a symbolic link to `src`.
    Symlink { src: Location, dest: Location },
    /// Create an empty file at `path`.
    Create { path: Location },
    /// Write all of `bytes` to the file at `path`.
    Write { path: Location, bytes: Vec<u8> },
}

/// A [`Request`] as a mathematical value.
pub enum SpecRequest {
    Run { program: Seq<char>, args: Seq<Seq<char>>, dir: Option<SpecLocation> },
    Get { url: Seq<char> },
    Exists { path: SpecLocation },
    IsSymlink { path: SpecLocation },
    Rename { from: SpecLocation, to: SpecLocation },
    Remove { path: SpecLocation },
    HardLink { src: SpecLocation, dest: SpecLocation },
    Symlink { src: SpecLocation, dest: SpecLocation },
    Create { path: SpecLocation },
    Write { path: SpecLocation, bytes: Seq<u8> },
}

impl View for Request {
    type V = SpecRequest;

    open spec fn view(&self) -> SpecRequest {
        match self {
            Request::Run { program, args, dir } => SpecRequest::Run {
                program: program@,
                args: texts(args@),
                dir: match dir {
                    Some(d) => Some(d@),
                    None => None,
                },
            },
            Request::Get { url } => SpecRequest::Get { url: url@ },
            Request::Exists { path } => SpecRequest::Exists { path: path@ },
            Request::IsSymlink { path } => SpecRequest::IsSymlink { path: path@ },
            Request::Rename { from, to } => SpecRequest::Rename { from: from@, to: to@ },
            Request::Remove { path } => SpecRequest::Remove { path: path@ },
            Request::HardLink { src, dest } => SpecRequest::HardLink { src: src@, dest: dest@ },
            Request::Symlink { src, dest } => SpecRequest::Symlink { src: src@, dest: dest@ },
            Request::Create { path } => SpecRequest::Create { path: path@ },
            Request::Write { path, bytes } => SpecRequest::Write { path: path@, bytes: bytes@ },
        }
    }
}

/// What the host answers to one request.
#[derive(Debug, Clone, PartialEq, Eq)]
pub enum Reply {
    /// The answer to a question about a path.
    Flag(bool),
    /// The process ran to its end; whether it reported success.
    Exited(bool),
    /// The change was made.
    Done,
    /// The body of the response.
    Body(Vec<u8>),
    /// The host could not carry the request out; the message says why.
    Failed(String),
}

/// A [`Reply`] as a mathematical value.
pub enum SpecReply {
    Flag(bool),
    Exited(bool),
    Done,
    Body(Seq<u8>),
    Failed(Seq<char>),
}

impl View for Reply {
    type V = SpecReply;

    open spec fn view(&self) -> SpecReply {
        match self {
            Reply::Flag(flag) => SpecReply::Flag(*flag),
            Reply::Exited(success) => SpecReply::Exited(*success),
            Reply::Done => SpecReply::Done,
            Reply::Body(bytes) => SpecReply::Body(bytes@),
            Reply::Failed(message) => SpecReply::Failed(message@),
        }
    }
}

/// The replies that a list holds, in order, as mathematical values.
pub open spec fn reply_views(replies: Seq<Reply>) -> Seq<SpecReply> {
    replies.map_values(|r: Reply| r@)
}

/// Whether `reply` is an answer that the host may give to `request`. A
/// failure answers any request.
pub open spec fn answers(request: SpecRequest, reply: SpecReply) -> bool {
    match reply {
        SpecReply::Failed(_) => true,
        SpecReply::Flag(_) => request is Exists || request is IsSymlink,
        SpecReply::Exited(_) => request is Run,
        SpecReply::Body(_) => request is Get,
        SpecReply::Done => !(request is Run || request is Get || request is Exists
            || request is IsSymlink),
    }
}

/// The environment of a run, read once from the host and handed to every action.
#[derive(Debug, Clone, PartialEq, Eq)]
pub struct Context {
    /// The identifier of the host's operating system.
    pub os: String,
    /// The operator's home directory.
    pub home: String,
}

/// A [`Context`] as a mathematical value.
pub struct SpecContext {
    pub os: Seq<char>,
    pub home: Seq<char>,
}

impl View for Context {
    type V = SpecContext;

    open spec fn view(&self) -> SpecContext {
        SpecContext { os: self.os@, home: self.home@ }
    }
}

/// `dirs::home_dir`: the home directory of the current user as the host
/// names it, as text; nothing where the host names none. Nothing is claimed
/// of the text.
#[verifier::external_body]
fn home_directory() -> (home: Option<String>) {
    match dirs::home_dir() {
        Some(path) => Some(path.display().to_string()),
        None => None,
    }
}

impl Context {
    /// The environment of a host whose operating system is `os` and whose
    /// operator lives at `home`.
    pub fn new(os: String, home: String) -> (ctx: Context)
        ensures
            ctx.os == os,
            ctx.home == home,
    {
        Context { os, home }
    }

    /// The environment of a host whose operating system is `os`, with the
    /// home directory that a lookup gave: there is no environment without one.
    pub fn with_home(os: String, home: Option<String>) -> (ctx: Option<Context>)
        ensures
            match home {
                Some(path) => ctx matches Some(found) && found.os == os && found.home == path,
                None => ctx is None,
            },
    {
        match home {
            Some(path) => Some(Context::new(os, path)),
            None => None,
        }
    }

    /// The environment of this host, whose operating system the caller
    /// names: the home directory is looked up. Nothing comes back where the
    /// host names no home directory.
    pub fn detect(os: String) -> (ctx: Option<Context>)
        ensures
            ctx matches Some(found) ==> found.os == os,
    {
        Context::with_home(os, home_directory())
    }
}

} // verus!
