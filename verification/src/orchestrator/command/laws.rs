//! What a process is started with, piece by piece.

use super::{Argument, Launch, Passed, Place, ProcessCommand};
use crate::lifecycle::Failure;
use crate::text::Separator;
use vstd::prelude::*;

verus! {

/// A process runs in the project's directory, or in the one its row names
/// there; a blank name and a dot are the project's own.
pub proof fn law_a_process_runs_inside_its_project(directory: Seq<char>, working_dir: Seq<char>)
    ensures
        ({
            let place = super::working_directory(directory, working_dir);
            let named = crate::text::trimmed(working_dir);
            &&& place.base == directory
            &&& named.len() == 0 || named == "."@ ==> place.parts.len() == 0
            &&& named.len() > 0 && named != "."@ ==> place.parts == seq![named]
        }),
{
}

/// Whether a piece of a path names an entry of a directory.
pub open spec fn names_an_entry(piece: Seq<char>) -> bool {
    piece.len() > 0 && piece != "."@
}

proof fn walking_keeps_the_names(pieces: Seq<Seq<char>>, from: Place)
    ensures
        super::walked(pieces, from) is Ok ==> super::walked(pieces, from)->Ok_0.base == from.base
            && super::walked(pieces, from)->Ok_0.parts == from.parts + pieces.filter(
            |piece: Seq<char>| names_an_entry(piece),
        ),
    decreases pieces.len(),
{
    let kept = |piece: Seq<char>| names_an_entry(piece);
    if pieces.len() == 0 {
        reveal(Seq::filter);
        assert(from.parts + pieces.filter(kept) =~= from.parts);
    } else {
        let first = pieces[0];
        let rest = pieces.drop_first();
        assert(pieces =~= seq![first] + rest);
        Seq::filter_distributes_over_add(seq![first], rest, kept);
        reveal(Seq::filter);
        reveal_with_fuel(Seq::filter, 2);
        assert(seq![first].drop_last() =~= Seq::empty());
        if !names_an_entry(first) {
            walking_keeps_the_names(rest, from);
            assert(seq![first].filter(kept) =~= Seq::empty());
            assert(pieces.filter(kept) =~= rest.filter(kept));
        } else {
            walking_keeps_the_names(rest, from.down(first));
            assert(seq![first].filter(kept) =~= seq![first]);
            assert(from.down(first).parts + rest.filter(kept) =~= from.parts + pieces.filter(kept));
        }
    }
}

/// A site is published from the process's own directory where nothing else is
/// named, and otherwise from the one that is reached by walking down every
/// entry the name names, in their order.
pub proof fn law_a_site_is_published_from_where_its_name_leads(
    directory: Place,
    publish_dir: Option<Seq<char>>,
)
    ensures
        publish_dir is None ==> super::published(directory, publish_dir) == Ok::<Place, Seq<char>>(
            directory,
        ),
        publish_dir is Some && crate::text::trimmed(publish_dir->0).len() == 0 ==> super::published(
            directory,
            publish_dir,
        ) == Ok::<Place, Seq<char>>(directory),
        publish_dir is Some && super::published(directory, publish_dir) is Ok ==> ({
            let root = super::published(directory, publish_dir)->Ok_0;
            let pieces = crate::text::pieces(
                crate::text::trimmed(publish_dir->0),
                Separator::Slash,
            );
            &&& root.base == directory.base
            &&& root.parts == directory.parts + pieces.filter(
                |piece: Seq<char>| names_an_entry(piece),
            )
        }),
{
    if publish_dir is Some {
        let relative = crate::text::trimmed(publish_dir->0);
        let pieces = crate::text::pieces(relative, Separator::Slash);
        walking_keeps_the_names(pieces, directory);
        if relative.len() == 0 {
            crate::text::laws::law_a_text_is_broken_at_its_separators(
                relative,
                '/',
                Seq::empty(),
                Separator::Slash,
            );
            reveal(Seq::filter);
            reveal_with_fuel(Seq::filter, 2);
            assert(pieces.drop_last() =~= Seq::empty());
            assert(directory.parts + pieces.filter(|piece: Seq<char>| names_an_entry(piece))
                =~= directory.parts);
        }
    }
}

proof fn the_first_refused_piece_decides(pieces: Seq<Seq<char>>, from: Place, at: int)
    requires
        0 <= at < pieces.len(),
        pieces[at] == ".."@ || pieces[at].contains(':'),
        forall|j: int|
            0 <= j < at ==> (#[trigger] pieces[j]) != ".."@ && !pieces[j].contains(':'),
    ensures
        super::walked(pieces, from) == Err::<Place, Seq<char>>(
            if pieces[at] == ".."@ {
                "the publish directory climbs out of the project"@
            } else {
                "the publish directory is an absolute path"@
            },
        ),
    decreases pieces.len(),
{
    reveal_strlit(".");
    reveal_strlit("..");
    reveal_strlit(":");
    assert("."@.len() == 1 && "."@[0] == '.' && ".."@.len() == 2);
    assert(":"@.len() == 1 && ":"@[0] == ':');
    let first = pieces[0];
    let rest = pieces.drop_first();
    crate::text::laws::law_a_text_is_found_where_it_first_stands(first, ":"@);
    if first.contains(':') {
        let k = choose|k: int| 0 <= k < first.len() && first[k] == ':';
        assert(crate::text::laws::occurs(first, ":"@, k));
    }
    if crate::text::found(first, ":"@) is Some {
        let k = crate::text::found(first, ":"@)->0;
        assert(":"@[0] == first[k + 0]);
        assert(first.contains(':'));
    }
    if at > 0 {
        assert(rest[at - 1] == pieces[at]);
        assert(first != ".."@ && !first.contains(':'));
        assert forall|j: int| 0 <= j < at - 1 implies (#[trigger] rest[j]) != ".."@
            && !rest[j].contains(':') by {
            assert(rest[j] == pieces[j + 1]);
        }
        the_first_refused_piece_decides(rest, from, at - 1);
        the_first_refused_piece_decides(rest, from.down(first), at - 1);
    }
}

/// A directory that is refused is refused for the first piece of it that climbs
/// or names a drive, and the words say which of the two it does.
pub proof fn law_a_refused_directory_says_which(
    directory: Place,
    publish_dir: Seq<char>,
    at: int,
)
    requires
        ({
            let pieces = crate::text::pieces(
                crate::text::trimmed(publish_dir),
                Separator::Slash,
            );
            &&& 0 <= at < pieces.len()
            &&& pieces[at] == ".."@ || pieces[at].contains(':')
            &&& forall|j: int|
                0 <= j < at ==> (#[trigger] pieces[j]) != ".."@ && !pieces[j].contains(':')
        }),
    ensures
        ({
            let pieces = crate::text::pieces(
                crate::text::trimmed(publish_dir),
                Separator::Slash,
            );
            super::published(directory, Some(publish_dir)) == Err::<Place, Seq<char>>(
                if pieces[at] == ".."@ {
                    "the publish directory climbs out of the project"@
                } else {
                    "the publish directory is an absolute path"@
                },
            )
        }),
{
    let relative = crate::text::trimmed(publish_dir);
    let pieces = crate::text::pieces(relative, Separator::Slash);
    the_first_refused_piece_decides(pieces, directory, at);
    if relative.len() == 0 {
        crate::text::laws::law_a_text_is_broken_at_its_separators(
            relative,
            '/',
            Seq::empty(),
            Separator::Slash,
        );
        reveal_strlit("..");
        assert(".."@.len() == 2);
        assert(pieces[at] == relative);
    }
}

/// A static site is served by this application itself, from the published
/// directory, on its port, in the process's own directory. Without a port it is
/// told zero. What the user configured reaches it under the same names, but for
/// the port.
pub proof fn law_a_static_site_is_served_by_this_application(
    executable: Result<Seq<char>, Seq<char>>,
    directory: Place,
    publish_dir: Option<Seq<char>>,
    port: Option<u16>,
    env: Seq<(Seq<char>, Seq<char>)>,
)
    requires
        crate::ordered::in_order(env),
    ensures
        ({
            let made = super::serving(executable, directory, publish_dir, port, env);
            let number = crate::text::decimal(
                match port {
                    Some(port) => port as nat,
                    None => 0,
                },
            );
            &&& executable is Err ==> made == Err::<Launch, Failure>(
                Failure::Scaffold(
                    "this application could not find its own executable, so it cannot serve a static site: "@
                        + executable->Err_0,
                ),
            )
            &&& executable is Ok && super::published(directory, publish_dir) is Err ==> made
                == Err::<Launch, Failure>(
                Failure::Scaffold(super::published(directory, publish_dir)->Err_0),
            )
            &&& executable is Ok && super::published(directory, publish_dir) is Ok ==> {
                &&& made is Ok
                &&& made->Ok_0.program == executable->Ok_0
                &&& made->Ok_0.cwd == directory
                &&& made->Ok_0.args.len() == 4
                &&& made->Ok_0.args[0] == Passed::Text("--serve-static"@)
                &&& made->Ok_0.args[1] == Passed::Path(super::published(directory, publish_dir)->Ok_0)
                &&& made->Ok_0.args[2] == Passed::Text("--port"@)
                &&& made->Ok_0.args[3] == Passed::Text(number)
                &&& crate::ordered::in_order(made->Ok_0.env)
                &&& crate::ordered::looked_up(made->Ok_0.env, "PORT"@) == Some(number)
                &&& forall|name: Seq<char>|
                    name != "PORT"@ ==> #[trigger] crate::ordered::looked_up(
                        made->Ok_0.env,
                        name,
                    ) == crate::ordered::looked_up(env, name)
            }
        }),
{
    let number = crate::text::decimal(
        match port {
            Some(port) => port as nat,
            None => 0,
        },
    );
    crate::ordered::law_an_insertion_is_read_back(env, "PORT"@, number);
}

/// A command is read as it is written.
pub proof fn law_a_command_is_read_whole(command: ProcessCommand)
    ensures
        command@.program == command.program@,
        command@.cwd.base == command.cwd.base@,
        command@.cwd.parts.len() == command.cwd.parts@.len(),
        forall|i: int|
            0 <= i < command.cwd.parts@.len() ==> #[trigger] command@.cwd.parts[i]
                == command.cwd.parts@[i]@,
        command@.args.len() == command.args@.len(),
        forall|i: int|
            0 <= i < command.args@.len() ==> match command.args@[i] {
                Argument::Text(text) => #[trigger] command@.args[i] == Passed::Text(text@),
                Argument::Path(path) => command@.args[i] == Passed::Path(path@),
            },
        command@.env.len() == command.env@.len(),
        forall|i: int|
            0 <= i < command.env@.len() ==> (#[trigger] command@.env[i]).0 == command.env@[i].0
                && command@.env[i].1 == command.env@[i].1@,
{
}

/// What making a command came to is read as it is written, and so is what an
/// executable was found as.
pub proof fn law_a_made_command_is_passed_on(
    command: Result<ProcessCommand, crate::lifecycle::LifecycleError>,
    executable: Result<&str, &str>,
)
    ensures
        command is Ok ==> super::launched(command) == Ok::<Launch, Failure>(command->Ok_0@),
        command is Err ==> super::launched(command) == Err::<Launch, Failure>(command->Err_0@),
        executable is Ok ==> super::told(executable) == Ok::<Seq<char>, Seq<char>>(
            executable->Ok_0@,
        ),
        executable is Err ==> super::told(executable) == Err::<Seq<char>, Seq<char>>(
            executable->Err_0@,
        ),
{
}

} // verus!
