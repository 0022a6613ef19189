//! What a process is started with.

pub mod laws;

use crate::lifecycle::LifecycleError;
use crate::ordered::TextMap;
use crate::text::{Separator, contains, decimal_text, same, split, trim};
use vstd::prelude::*;

verus! {

/// The flag that puts this application into static-server mode.
///
/// Defined here and read by the desktop shell's `main`, so the two cannot
/// drift apart into a project that spawns a flag nothing handles.
pub const SERVE_STATIC_FLAG: &'static str = "--serve-static";

/// A directory of a project: where the project is, and what is walked down
/// from there.
#[derive(Debug, PartialEq, Eq)]
pub struct ProjectPath {
    pub base: String,
    pub parts: Vec<String>,
}

/// A directory as a mathematical value.
#[verifier::ext_equal]
pub struct Place {
    pub base: Seq<char>,
    pub parts: Seq<Seq<char>>,
}

impl View for ProjectPath {
    type V = Place;

    open spec fn view(&self) -> Place {
        Place { base: self.base@, parts: crate::text::texts(self.parts@) }
    }
}

impl Place {
    pub open spec fn down(self, part: Seq<char>) -> Place {
        Place { parts: self.parts.push(part), ..self }
    }
}

impl ProjectPath {
    /// A path of its own to the same directory.
    pub fn duplicate(&self) -> (copy: ProjectPath)
        ensures
            copy@ == self@,
    {
        let mut parts: Vec<String> = Vec::new();
        let mut index: usize = 0;
        while index < self.parts.len()
            invariant
                index <= self.parts@.len(),
                parts@ == self.parts@.take(index as int),
            decreases self.parts@.len() - index,
        {
            parts.push(self.parts[index].clone());
            assert(parts@ =~= self.parts@.take(index + 1));
            index += 1;
        }
        assert(self.parts@.take(index as int) =~= self.parts@);
        ProjectPath { base: self.base.clone(), parts }
    }

    fn push(&mut self, part: &str)
        ensures
            final(self)@ == old(self)@.down(part@),
    {
        self.parts.push(part.to_owned());
        assert(self@ =~= old(self)@.down(part@));
    }
}

/// A process's working directory, where the stored value is relative to the
/// project and `.` is the common case.
pub open spec fn working_directory(directory: Seq<char>, working_dir: Seq<char>) -> Place {
    let trimmed = crate::text::trimmed(working_dir);
    Place {
        base: directory,
        parts: if trimmed.len() == 0 || trimmed == "."@ {
            Seq::empty()
        } else {
            seq![trimmed]
        },
    }
}

/// A process's working directory.
pub fn joined(directory: &str, working_dir: &str) -> (path: ProjectPath)
    ensures
        path@ == working_directory(directory@, working_dir@),
{
    let trimmed = trim(working_dir);
    let mut path = ProjectPath { base: directory.to_owned(), parts: Vec::new() };
    assert(path@ =~= Place { base: directory@, parts: Seq::empty() });
    if trimmed.is_empty() || same(trimmed, ".") {
        return path;
    }
    path.push(trimmed);
    assert(path@ =~= working_directory(directory@, working_dir@));
    path
}

/// What the user configured a project to run with.
#[derive(Debug)]
pub struct Environment {
    pub values: TextMap<String>,
    /// The secret variables that could not be decrypted, by name. They are not
    /// passed to the project.
    pub undecryptable_keys: Vec<String>,
}

impl Environment {
    pub fn empty() -> (environment: Environment)
        ensures
            environment.values@ == Seq::<(Seq<char>, String)>::empty(),
            environment.undecryptable_keys@ == Seq::<String>::empty(),
    {
        Environment { values: TextMap::new(), undecryptable_keys: Vec::new() }
    }
}

/// One argument of a command.
#[derive(Debug, PartialEq, Eq)]
pub enum Argument {
    Text(String),
    Path(ProjectPath),
}

/// An argument as a mathematical value.
pub enum Passed {
    Text(Seq<char>),
    Path(Place),
}

impl View for Argument {
    type V = Passed;

    open spec fn view(&self) -> Passed {
        match self {
            Argument::Text(text) => Passed::Text(text@),
            Argument::Path(path) => Passed::Path(path@),
        }
    }
}

/// A command ready to be spawned.
#[derive(Debug)]
pub struct ProcessCommand {
    pub program: String,
    pub args: Vec<Argument>,
    pub cwd: ProjectPath,
    pub env: TextMap<String>,
}

/// A command as a mathematical value.
#[verifier::ext_equal]
pub struct Launch {
    pub program: Seq<char>,
    pub args: Seq<Passed>,
    pub cwd: Place,
    pub env: Seq<(Seq<char>, Seq<char>)>,
}

impl View for ProcessCommand {
    type V = Launch;

    open spec fn view(&self) -> Launch {
        Launch {
            program: self.program@,
            args: self.args@.map_values(|argument: Argument| argument@),
            cwd: self.cwd@,
            env: crate::ordered::settings(self.env@),
        }
    }
}

impl Argument {
    /// An argument of its own that says the same.
    pub fn duplicate(&self) -> (copy: Argument)
        ensures
            copy@ == self@,
    {
        match self {
            Argument::Text(text) => Argument::Text(text.clone()),
            Argument::Path(path) => Argument::Path(path.duplicate()),
        }
    }
}

impl ProcessCommand {
    /// A command of its own that does the same.
    pub fn duplicate(&self) -> (copy: ProcessCommand)
        ensures
            copy@ == self@,
    {
        let mut args: Vec<Argument> = Vec::new();
        let mut index: usize = 0;
        let ghost passed = self@.args;
        while index < self.args.len()
            invariant
                index <= self.args@.len(),
                passed == self.args@.map_values(|argument: Argument| argument@),
                args@.map_values(|argument: Argument| argument@) == passed.take(index as int),
            decreases self.args@.len() - index,
        {
            let ghost earlier = args@.map_values(|argument: Argument| argument@);
            args.push(self.args[index].duplicate());
            assert(args@.map_values(|argument: Argument| argument@) =~= earlier.push(
                passed[index as int],
            ));
            assert(passed.take(index + 1) =~= passed.take(index as int).push(
                passed[index as int],
            ));
            index += 1;
        }
        assert(passed.take(index as int) =~= passed);
        ProcessCommand {
            program: self.program.clone(),
            args,
            cwd: self.cwd.duplicate(),
            env: self.env.duplicate(),
        }
    }
}

/// A directory that a published one is walked down to, piece by piece. The
/// pieces are looked at before any joining happens: a joined path still begins
/// with the project's directory however far it climbs out of it.
pub open spec fn walked(pieces: Seq<Seq<char>>, from: Place) -> Result<Place, Seq<char>>
    decreases pieces.len(),
{
    if pieces.len() == 0 {
        Ok(from)
    } else if pieces[0].len() == 0 || pieces[0] == "."@ {
        walked(pieces.drop_first(), from)
    } else if pieces[0] == ".."@ {
        Err("the publish directory climbs out of the project"@)
    } else if crate::text::found(pieces[0], ":"@) is Some {
        Err("the publish directory is an absolute path"@)
    } else {
        walked(pieces.drop_first(), from.down(pieces[0]))
    }
}

/// The directory a static site is served from.
pub open spec fn published(directory: Place, publish_dir: Option<Seq<char>>) -> Result<
    Place,
    Seq<char>,
> {
    match super::prepare::worth_running(publish_dir) {
        Some(relative) => walked(crate::text::pieces(relative, Separator::Slash), directory),
        None => Ok(directory),
    }
}

/// The command that serves a static site, or why there is none.
pub open spec fn serving(
    executable: Result<Seq<char>, Seq<char>>,
    directory: Place,
    publish_dir: Option<Seq<char>>,
    port: Option<u16>,
    env: Seq<(Seq<char>, Seq<char>)>,
) -> Result<Launch, crate::lifecycle::Failure> {
    let number = crate::text::decimal(
        match port {
            Some(port) => port as nat,
            None => 0,
        },
    );
    match executable {
        Err(error) => Err(
            crate::lifecycle::Failure::Scaffold(
                "this application could not find its own executable, so it cannot serve a static site: "@
                    + error,
            ),
        ),
        Ok(program) => match published(directory, publish_dir) {
            Err(reason) => Err(crate::lifecycle::Failure::Scaffold(reason)),
            Ok(root) => Ok(
                Launch {
                    program,
                    args: seq![
                        Passed::Text(SERVE_STATIC_FLAG@),
                        Passed::Path(root),
                        Passed::Text("--port"@),
                        Passed::Text(number),
                    ],
                    cwd: directory,
                    env: crate::ordered::inserted(env, "PORT"@, number),
                },
            ),
        },
    }
}

/// What a fallible command came to, as a mathematical value.
pub open spec fn launched(result: Result<ProcessCommand, LifecycleError>) -> Result<
    Launch,
    crate::lifecycle::Failure,
> {
    match result {
        Ok(command) => Ok(command@),
        Err(error) => Err(error@),
    }
}

/// What a fallible text came to, as a mathematical value.
pub open spec fn told(result: Result<&str, &str>) -> Result<Seq<char>, Seq<char>> {
    match result {
        Ok(text) => Ok(text@),
        Err(error) => Err(error@),
    }
}

/// Walk down to the published directory.
fn published_root(directory: &ProjectPath, publish_dir: Option<&str>) -> (root: Result<
    ProjectPath,
    &'static str,
>)
    ensures
        match root {
            Ok(root) => published(directory@, crate::text::optional_slice(publish_dir)) == Ok::<
                Place,
                Seq<char>,
            >(root@),
            Err(reason) => published(directory@, crate::text::optional_slice(publish_dir))
                == Err::<Place, Seq<char>>(reason@),
        },
{
    let mut candidate = directory.duplicate();
    let relative = match publish_dir {
        Some(publish_dir) => trim(publish_dir),
        None => return Ok(candidate),
    };
    if relative.is_empty() {
        return Ok(candidate);
    }
    let parts = split(relative, Separator::Slash);
    let ghost all = crate::text::slices(parts@);
    let mut index: usize = 0;
    assert(all.skip(0) =~= all);
    while index < parts.len()
        invariant
            index <= parts@.len(),
            all == crate::text::slices(parts@),
            published(directory@, crate::text::optional_slice(publish_dir)) == walked(
                all,
                directory@,
            ),
            walked(all.skip(index as int), candidate@) == walked(all, directory@),
        decreases parts@.len() - index,
    {
        let part = parts[index];
        let ghost rest = all.skip(index as int);
        assert(rest[0] == part@);
        assert(rest.drop_first() =~= all.skip(index + 1));
        if part.is_empty() || same(part, ".") {
        } else if same(part, "..") {
            return Err("the publish directory climbs out of the project");
        } else if contains(part, ":") {
            return Err("the publish directory is an absolute path");
        } else {
            candidate.push(part);
        }
        index += 1;
    }
    assert(all.skip(index as int).len() == 0);
    Ok(candidate)
}

/// The command that serves a static project's files.
///
/// This application's own executable, in its static-server mode. Reaching for
/// whatever the machine happened to have would make a static site the only
/// runtime whose ability to start depends on a language the project does not
/// use.
pub fn static_command(
    executable: Result<&str, &str>,
    directory: &ProjectPath,
    publish_dir: Option<&str>,
    port: Option<u16>,
    environment: &Environment,
) -> (command: Result<ProcessCommand, LifecycleError>)
    ensures
        launched(command) == serving(
            told(executable),
            directory@,
            crate::text::optional_slice(publish_dir),
            port,
            crate::ordered::settings(environment.values@),
        ),
{
    let program = match executable {
        Ok(program) => program,
        Err(error) => return Err(
            LifecycleError::Scaffold(
                "this application could not find its own executable, so it cannot serve a static site: ".to_owned().concat(
                error),
            ),
        ),
    };
    let root = match published_root(directory, publish_dir) {
        Ok(root) => root,
        Err(reason) => return Err(LifecycleError::Scaffold(reason.to_owned())),
    };
    let port: u16 = match port {
        Some(port) => port,
        None => 0,
    };
    let number = decimal_text(port);
    let mut env = environment.values.duplicate();
    let ghost configured = env@;
    env.insert("PORT".to_owned(), number.clone());
    proof {
        crate::ordered::mapping_keeps_the_keys(
            configured,
            |value: String| value@,
            "PORT"@,
            number,
        );
    }
    let mut args: Vec<Argument> = Vec::new();
    args.push(Argument::Text(SERVE_STATIC_FLAG.to_owned()));
    args.push(Argument::Path(root));
    args.push(Argument::Text("--port".to_owned()));
    args.push(Argument::Text(number));
    let command = ProcessCommand {
        program: program.to_owned(),
        args,
        cwd: directory.duplicate(),
        env,
    };
    assert(command@.args =~= seq![
        Passed::Text(SERVE_STATIC_FLAG@),
        Passed::Path(root@),
        Passed::Text("--port"@),
        Passed::Text(number@),
    ]);
    Ok(command)
}

/// A static site is told its port twice, as an argument and in its
/// environment, and both say the same; whatever else the user configured
/// reaches it as configured.
pub proof fn law_a_static_site_is_told_its_port(
    executable: Result<Seq<char>, Seq<char>>,
    directory: Place,
    publish_dir: Option<Seq<char>>,
    port: u16,
    env: Seq<(Seq<char>, Seq<char>)>,
)
    requires
        crate::ordered::in_order(env),
        serving(executable, directory, publish_dir, Some(port), env) is Ok,
    ensures
        serving(executable, directory, publish_dir, Some(port), env)->Ok_0.args[3] == Passed::Text(
            crate::text::decimal(port as nat),
        ),
        crate::ordered::looked_up(
            serving(executable, directory, publish_dir, Some(port), env)->Ok_0.env,
            "PORT"@,
        ) == Some(crate::text::decimal(port as nat)),
        forall|name: Seq<char>|
            name != "PORT"@ ==> #[trigger] crate::ordered::looked_up(
                serving(executable, directory, publish_dir, Some(port), env)->Ok_0.env,
                name,
            ) == crate::ordered::looked_up(env, name),
{
    crate::ordered::law_an_insertion_is_read_back(
        env,
        "PORT"@,
        crate::text::decimal(port as nat),
    );
}

/// Whether a piece of a path leads down: it is the name of one entry of a
/// directory.
pub open spec fn leads_down(part: Seq<char>) -> bool {
    &&& part.len() > 0
    &&& part != "."@
    &&& part != ".."@
    &&& !part.contains('/')
    &&& !part.contains('\\')
    &&& !part.contains(':')
}

proof fn found_where_contained(part: Seq<char>, from: int, at: int)
    requires
        0 <= from <= at < part.len(),
        part[at] == ':',
    ensures
        crate::text::found_from(part, ":"@, from) is Some,
    decreases at - from,
{
    reveal_strlit(":");
    if !crate::text::stands_at(part, ":"@, from) {
        if from == at {
            assert(part.subrange(at, at + 1) =~= ":"@);
        }
        found_where_contained(part, from + 1, at);
    }
}

proof fn pieces_hold_no_separator(s: Seq<char>, separator: Separator, start: int)
    requires
        0 <= start <= s.len(),
    ensures
        forall|k: int, i: int|
            0 <= k < crate::text::pieces_from(s, separator, start).len() && 0 <= i
                < crate::text::pieces_from(s, separator, start)[k].len() ==> !separator.at(
                #[trigger] crate::text::pieces_from(s, separator, start)[k][i],
            ),
    decreases s.len() - start,
{
    no_separator_before_the_break(s, separator, start);
    let end = crate::text::next_break(s, separator, start);
    let all = crate::text::pieces_from(s, separator, start);
    if end < s.len() {
        pieces_hold_no_separator(s, separator, end + 1);
        let rest = crate::text::pieces_from(s, separator, end + 1);
        assert forall|k: int, i: int|
            0 <= k < all.len() && 0 <= i < all[k].len() implies !separator.at(
            #[trigger] all[k][i],
        ) by {
            if k > 0 {
                assert(all[k] == rest[k - 1]);
                assert(!separator.at(rest[k - 1][i]));
            }
        }
    }
}

proof fn no_separator_before_the_break(s: Seq<char>, separator: Separator, start: int)
    requires
        0 <= start <= s.len(),
    ensures
        start <= crate::text::next_break(s, separator, start) <= s.len(),
        forall|i: int|
            start <= i < crate::text::next_break(s, separator, start) ==> !separator.at(
                #[trigger] s[i],
            ),
    decreases s.len() - start,
{
    if start < s.len() && !separator.at(s[start]) {
        no_separator_before_the_break(s, separator, start + 1);
    }
}

proof fn walking_only_leads_down(pieces: Seq<Seq<char>>, from: Place, into: Place)
    requires
        walked(pieces, from) == Ok::<Place, Seq<char>>(into),
        forall|k: int|
            0 <= k < pieces.len() ==> !(#[trigger] pieces[k]).contains('/') && !pieces[k].contains(
                '\\',
            ),
    ensures
        into.base == from.base,
        from.parts.len() <= into.parts.len(),
        into.parts.take(from.parts.len() as int) == from.parts,
        forall|i: int|
            from.parts.len() <= i < into.parts.len() ==> leads_down(#[trigger] into.parts[i]),
    decreases pieces.len(),
{
    if pieces.len() == 0 {
        assert(into.parts.take(from.parts.len() as int) =~= from.parts);
    } else {
        let rest = pieces.drop_first();
        let first = pieces[0];
        assert forall|k: int| 0 <= k < rest.len() implies !(#[trigger] rest[k]).contains('/')
            && !rest[k].contains('\\') by {
            assert(rest[k] == pieces[k + 1]);
        }
        if first.len() == 0 || first == "."@ {
            walking_only_leads_down(rest, from, into);
        } else {
            let next = from.down(first);
            walking_only_leads_down(rest, next, into);
            assert(leads_down(first)) by {
                if first.contains(':') {
                    let at = choose|at: int| 0 <= at < first.len() && first[at] == ':';
                    found_where_contained(first, 0, at);
                }
            }
            assert(into.parts.take(from.parts.len() as int) =~= next.parts.take(
                from.parts.len() as int,
            ));
            assert(next.parts.take(from.parts.len() as int) =~= from.parts);
            assert(into.parts[from.parts.len() as int] == into.parts.take(
                next.parts.len() as int,
            )[from.parts.len() as int]);
        }
    }
}

/// A published directory is inside the project: it is the process's own
/// directory and then names of entries only, none of which climbs, is
/// absolute or holds a separator of either kind.
pub proof fn law_a_published_directory_stays_inside(
    directory: Place,
    publish_dir: Option<Seq<char>>,
    root: Place,
)
    requires
        published(directory, publish_dir) == Ok::<Place, Seq<char>>(root),
    ensures
        root.base == directory.base,
        directory.parts.len() <= root.parts.len(),
        root.parts.take(directory.parts.len() as int) == directory.parts,
        forall|i: int|
            directory.parts.len() <= i < root.parts.len() ==> leads_down(#[trigger] root.parts[i]),
{
    match super::prepare::worth_running(publish_dir) {
        Some(relative) => {
            let pieces = crate::text::pieces(relative, Separator::Slash);
            pieces_hold_no_separator(relative, Separator::Slash, 0);
            assert forall|k: int| 0 <= k < pieces.len() implies !(#[trigger] pieces[k]).contains(
                '/',
            ) && !pieces[k].contains('\\') by {
                if pieces[k].contains('/') {
                    let i = choose|i: int| 0 <= i < pieces[k].len() && pieces[k][i] == '/';
                    assert(!Separator::Slash.at(pieces[k][i]));
                }
                if pieces[k].contains('\\') {
                    let i = choose|i: int| 0 <= i < pieces[k].len() && pieces[k][i] == '\\';
                    assert(!Separator::Slash.at(pieces[k][i]));
                }
            }
            walking_only_leads_down(pieces, directory, root);
        },
        None => {
            assert(root.parts.take(directory.parts.len() as int) =~= directory.parts);
        },
    }
}

/// Whether a piece of a published directory refuses the whole of it.
pub open spec fn refused(piece: Seq<char>) -> bool {
    piece == ".."@ || piece.contains(':')
}

proof fn contained_where_found(part: Seq<char>, from: int)
    requires
        0 <= from,
        crate::text::found_from(part, ":"@, from) is Some,
    ensures
        part.contains(':'),
    decreases part.len() + 1 - from,
{
    reveal_strlit(":");
    if crate::text::stands_at(part, ":"@, from) {
        assert(part.subrange(from, from + 1)[0] == ':');
        assert(part[from] == ':');
    } else {
        contained_where_found(part, from + 1);
    }
}

/// A published directory is refused exactly when it climbs anywhere along its
/// way, however far down it went before, or names a drive.
pub proof fn law_only_climbing_and_absolute_paths_are_refused(
    directory: Place,
    publish_dir: Seq<char>,
)
    ensures
        published(directory, Some(publish_dir)) is Err <==> exists|at: int|
            0 <= at < crate::text::pieces(
                crate::text::trimmed(publish_dir),
                Separator::Slash,
            ).len() && refused(
                #[trigger] crate::text::pieces(
                    crate::text::trimmed(publish_dir),
                    Separator::Slash,
                )[at],
            ),
{
    let relative = crate::text::trimmed(publish_dir);
    let pieces = crate::text::pieces(relative, Separator::Slash);
    if relative.len() == 0 {
        reveal_strlit("..");
        assert(pieces =~= seq![relative.subrange(0, 0)]);
        assert forall|at: int| 0 <= at < pieces.len() implies !refused(#[trigger] pieces[at]) by {
            assert(pieces[at].len() == 0);
            assert(".."@.len() == 2);
        }
    } else {
        refused_where_met(pieces, directory);
    }
}

proof fn refused_where_met(pieces: Seq<Seq<char>>, from: Place)
    ensures
        walked(pieces, from) is Err <==> exists|at: int|
            0 <= at < pieces.len() && refused(#[trigger] pieces[at]),
    decreases pieces.len(),
{
    reveal_strlit("..");
    reveal_strlit(".");
    assert(".."@.len() == 2 && "."@.len() == 1);
    assert("."@[0] == '.');
    if pieces.len() > 0 {
        let rest = pieces.drop_first();
        let first = pieces[0];
        refused_where_met(rest, from);
        refused_where_met(rest, from.down(first));
        if first.contains(':') {
            let at = choose|at: int| 0 <= at < first.len() && first[at] == ':';
            found_where_contained(first, 0, at);
        }
        if crate::text::found(first, ":"@) is Some {
            contained_where_found(first, 0);
        }
        if exists|at: int|
            0 <= at < rest.len() && refused(#[trigger] rest[at]) {
            let at = choose|at: int|
                0 <= at < rest.len() && refused(#[trigger] rest[at]);
            assert(pieces[at + 1] == rest[at]);
        }
        if exists|at: int|
            0 <= at < pieces.len() && refused(#[trigger] pieces[at]) {
            let at = choose|at: int|
                0 <= at < pieces.len() && refused(#[trigger] pieces[at]);
            if at > 0 {
                assert(rest[at - 1] == pieces[at]);
            }
        }
    }
}

} // verus!
