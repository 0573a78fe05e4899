use vstd::prelude::*;
use vstd::string::*;

use crate::retrieval::{cached_images, file_path, in_dir, pick_cached_image};
use crate::text::strs;

verus! {

/// What a run does, from its command-line flags.
#[derive(PartialEq, Eq, Structural, Clone, Copy, Debug)]
pub enum Command {
    /// Fetch the service's list of tags and stop.
    Tags,
    /// Create the directories and the default configuration and stop.
    Setup,
    /// Show an image; `silent` leaves out the display step.
    Run { silent: bool },
}

/// The command of a list of flags: the first `-t` or `-c` stops the reading;
/// a `-s` before it makes the run silent; other words are ignored.
pub open spec fn command_of(args: Seq<Seq<char>>) -> Command
    decreases args.len(),
{
    if args.len() == 0 {
        Command::Run { silent: false }
    } else if args[0] == "-t"@ {
        Command::Tags
    } else if args[0] == "-c"@ {
        Command::Setup
    } else {
        match command_of(args.drop_first()) {
            Command::Run { silent } => Command::Run { silent: silent || args[0] == "-s"@ },
            other => other,
        }
    }
}

fn command_from(args: &Vec<String>, i: usize) -> (r: Command)
    requires
        i <= args@.len(),
    ensures
        r == command_of(strs(args@).subrange(i as int, args@.len() as int)),
    decreases args@.len() - i,
{
    let ghost rest = strs(args@).subrange(i as int, args@.len() as int);
    if i == args.len() {
        Command::Run { silent: false }
    } else {
        proof {
            assert(rest.drop_first() =~= strs(args@).subrange(i + 1, args@.len() as int));
            assert(rest[0] == args@[i as int]@);
        }
        let word = &args[i];
        if *word == String::from_str("-t") {
            Command::Tags
        } else if *word == String::from_str("-c") {
            Command::Setup
        } else {
            match command_from(args, i + 1) {
                Command::Run { silent } => Command::Run {
                    silent: silent || *word == String::from_str("-s"),
                },
                other => other,
            }
        }
    }
}

/// Reads the command-line flags, the program's name left out.
pub fn parse_args(args: &Vec<String>) -> (r: Command)
    ensures
        r == command_of(strs(args@)),
{
    assert(strs(args@).subrange(0, args@.len() as int) =~= strs(args@));
    command_from(args, 0)
}

/// One step of a run that touches the file system or the viewer.
#[derive(Clone, Debug, PartialEq, Eq)]
pub enum Action {
    /// Write the fetched body to a file.
    Write { path: String },
    /// Show a file with the viewer.
    Display { alignment: String, path: String },
    /// Copy a file into the cache.
    CopyToCache { from: String, to: String },
    /// Delete a file.
    Remove { path: String },
}

/// The files that a list of actions leaves, starting from none: writing and
/// copying create their target, removing deletes its path.
pub open spec fn files_left(plan: Seq<Action>) -> Set<Seq<char>>
    decreases plan.len(),
{
    if plan.len() == 0 {
        Set::empty()
    } else {
        let before = files_left(plan.drop_last());
        match plan.last() {
            Action::Write { path } => before.insert(path@),
            Action::CopyToCache { to, .. } => before.insert(to@),
            Action::Remove { path } => before.remove(path@),
            Action::Display { .. } => before,
        }
    }
}

/// The steps that follow a fetched image: write it under the local data
/// directory, show it unless silent, copy it into the cache when caching,
/// and delete it last.
pub fn save_actions(
    local_data: &str,
    cache_folder: &str,
    image_name: &str,
    alignment: &str,
    cache: bool,
    silent: bool,
) -> (r: Vec<Action>)
    ensures
        r@.len() == 2 + (if silent { 0int } else { 1int }) + (if cache { 1int } else { 0int }),
        r@[0] == (Action::Write { path: r@[0]->Write_path }),
        r@[0]->Write_path@ == in_dir(local_data@, image_name@),
        !silent ==> r@[1] == (Action::Display {
            alignment: r@[1]->Display_alignment,
            path: r@[1]->Display_path,
        }) && r@[1]->Display_alignment@ == alignment@ && r@[1]->Display_path@ == in_dir(
            local_data@,
            image_name@,
        ),
        cache ==> r@[r@.len() - 2] == (Action::CopyToCache {
            from: r@[r@.len() - 2]->CopyToCache_from,
            to: r@[r@.len() - 2]->CopyToCache_to,
        }) && r@[r@.len() - 2]->CopyToCache_from@ == in_dir(local_data@, image_name@)
            && r@[r@.len() - 2]->CopyToCache_to@ == in_dir(cache_folder@, image_name@),
        r@.last() == (Action::Remove { path: r@.last()->Remove_path }),
        r@.last()->Remove_path@ == in_dir(local_data@, image_name@),
        forall|i: int|
            0 < i < r@.len() - 1 ==> !(#[trigger] r@[i] is Write) && !(r@[i] is Remove),
        in_dir(cache_folder@, image_name@) != in_dir(local_data@, image_name@) ==> files_left(r@)
            == if cache {
            set![in_dir(cache_folder@, image_name@)]
        } else {
            Set::<Seq<char>>::empty()
        },
        cache_folder@ == in_dir(local_data@, "cache"@) ==> files_left(r@) == if cache {
            set![in_dir(cache_folder@, image_name@)]
        } else {
            Set::<Seq<char>>::empty()
        },
{
    let mut r: Vec<Action> = Vec::new();
    r.push(Action::Write { path: file_path(local_data, image_name) });
    if !silent {
        r.push(
            Action::Display {
                alignment: String::from_str(alignment),
                path: file_path(local_data, image_name),
            },
        );
    }
    if cache {
        r.push(
            Action::CopyToCache {
                from: file_path(local_data, image_name),
                to: file_path(cache_folder, image_name),
            },
        );
    }
    r.push(Action::Remove { path: file_path(local_data, image_name) });
    proof {
        let t = in_dir(local_data@, image_name@);
        let c = in_dir(cache_folder@, image_name@);
        let n = r@.len() as int;
        if cache_folder@ == in_dir(local_data@, "cache"@) {
            reveal_strlit("cache");
            reveal_strlit("/");
            assert(c.len() != t.len());
        }
        assert(r@.take(1).drop_last() =~= Seq::<Action>::empty());
        assert(r@.take(1).last() == r@[0]);
        assert(files_left(r@.take(1).drop_last()) == Set::<Seq<char>>::empty());
        assert(Set::<Seq<char>>::empty().insert(t) =~= set![t]);
        assert(files_left(r@.take(1)) == set![t]);
        let mut k: int = 1;
        if !silent {
            assert(r@.take(2).drop_last() =~= r@.take(1));
            assert(r@.take(2).last() == r@[1]);
            assert(files_left(r@.take(2)) == set![t]);
            k = 2;
        }
        if cache {
            assert(r@.take(k + 1).drop_last() =~= r@.take(k));
            assert(r@.take(k + 1).last() == r@[k]);
            assert(files_left(r@.take(k + 1)) == set![t].insert(c));
            k = k + 1;
        }
        assert(k == n - 1);
        assert(r@.take(n).drop_last() =~= r@.take(k));
        assert(r@.take(n) =~= r@);
        assert(r@.take(n).last() == r@[k]);
        if c != t {
            if cache {
                assert(set![t].insert(c).remove(t) =~= set![c]);
            } else {
                assert(set![t].remove(t) =~= Set::<Seq<char>>::empty());
            }
        }
    }
    r
}

/// The steps of an offline run: show one image of the cache, picked at
/// random, unless silent; nothing when the cache holds no image.
pub fn offline_actions(cache_folder: &str, entries: &Vec<String>, alignment: &str, silent: bool) -> (r:
    Vec<Action>)
    ensures
        r@.len() <= 1,
        r@.len() == 1 <==> !silent && cached_images(strs(entries@)).len() > 0,
        r@.len() == 1 ==> r@[0] == (Action::Display {
            alignment: r@[0]->Display_alignment,
            path: r@[0]->Display_path,
        }) && r@[0]->Display_alignment@ == alignment@ && exists|i: int|
            0 <= i < cached_images(strs(entries@)).len() && r@[0]->Display_path@ == in_dir(
                cache_folder@,
                #[trigger] cached_images(strs(entries@))[i],
            ),
{
    let mut r: Vec<Action> = Vec::new();
    if silent {
        return r;
    }
    match pick_cached_image(cache_folder, entries) {
        Some(path) => {
            r.push(Action::Display { alignment: String::from_str(alignment), path });
        },
        None => {},
    }
    r
}

/// The directory of the configuration under a home directory.
pub fn config_dir(home: &str) -> (r: String)
    ensures
        r@ == home@ + "/.config/kitty-cat"@,
{
    let mut r = String::from_str(home);
    r.append("/.config/kitty-cat");
    r
}

/// The configuration file under a home directory.
pub fn get_config(home: &str) -> (r: String)
    ensures
        r@ == in_dir(home@ + "/.config/kitty-cat"@, "config.toml"@),
{
    let dir = config_dir(home);
    file_path(dir.as_str(), "config.toml")
}

/// The directory that fetched images are written to, under a home directory.
pub fn get_local_data(home: &str) -> (r: String)
    ensures
        r@ == home@ + "/.local/share/kitty-cat"@,
{
    let mut r = String::from_str(home);
    r.append("/.local/share/kitty-cat");
    r
}

/// The cache directory inside the local data directory.
pub fn cache_dir(local_data: &str) -> (r: String)
    ensures
        r@ == in_dir(local_data@, "cache"@),
{
    file_path(local_data, "cache")
}

/// The paths that setup makes sure of, in order: the configuration
/// directory, the configuration file, the data directory and the cache.
pub open spec fn setup_path_views(home: Seq<char>) -> Seq<Seq<char>> {
    seq![
        home + "/.config/kitty-cat"@,
        in_dir(home + "/.config/kitty-cat"@, "config.toml"@),
        home + "/.local/share/kitty-cat"@,
        in_dir(home + "/.local/share/kitty-cat"@, "cache"@),
    ]
}

/// The paths that setup makes sure of, in order: the configuration
/// directory, the configuration file, the data directory and the cache.
pub fn setup_paths(home: &str) -> (r: Vec<String>)
    ensures
        strs(r@) == setup_path_views(home@),
        r@.len() == 4,
        r@[0]@ == home@ + "/.config/kitty-cat"@,
        r@[1]@ == in_dir(home@ + "/.config/kitty-cat"@, "config.toml"@),
        r@[2]@ == home@ + "/.local/share/kitty-cat"@,
        r@[3]@ == in_dir(home@ + "/.local/share/kitty-cat"@, "cache"@),
{
    let local = get_local_data(home);
    let cache = cache_dir(local.as_str());
    let mut r: Vec<String> = Vec::new();
    r.push(config_dir(home));
    r.push(get_config(home));
    r.push(local);
    r.push(cache);
    assert(strs(r@) =~= setup_path_views(home@));
    r
}

/// One step of setup.
#[derive(Clone, Debug, PartialEq, Eq)]
pub enum SetupStep {
    /// Create a directory.
    CreateDir { path: String },
    /// Write a file with the given text.
    WriteConfig { path: String, text: String },
}

/// A step of setup as its path and, for a file, the text it gets.
pub open spec fn setup_step_view(s: SetupStep) -> (Seq<char>, Option<Seq<char>>) {
    match s {
        SetupStep::CreateDir { path } => (path@, None),
        SetupStep::WriteConfig { path, text } => (path@, Some(text@)),
    }
}

/// The steps of setup over its paths, in order: each path that does not
/// exist yet is created, as the default configuration for the file (the
/// second path) and as a directory for the others. A path counts as
/// existing where `exists` says so; past its end, as missing.
pub open spec fn setup_plan(paths: Seq<Seq<char>>, exists: Seq<bool>) -> Seq<
    (Seq<char>, Option<Seq<char>>),
>
    decreases paths.len(),
{
    if paths.len() == 0 {
        Seq::empty()
    } else {
        let i = paths.len() - 1;
        let before = setup_plan(paths.drop_last(), exists);
        if i < exists.len() && exists[i] {
            before
        } else {
            before.push(
                (
                    paths[i],
                    if i == 1 {
                        Some("offline = false\ncache=true"@)
                    } else {
                        None
                    },
                ),
            )
        }
    }
}

/// The steps of setup under a home directory, given which of its paths
/// (in the order of `setup_paths`) already exist.
pub fn setup_steps(home: &str, exists: &Vec<bool>) -> (r: Vec<SetupStep>)
    ensures
        r@.map_values(|s: SetupStep| setup_step_view(s)) == setup_plan(
            setup_path_views(home@),
            exists@,
        ),
{
    let paths = setup_paths(home);
    let mut r: Vec<SetupStep> = Vec::new();
    let mut i: usize = 0;
    while i < paths.len()
        invariant
            i <= paths@.len(),
            strs(paths@) == setup_path_views(home@),
            r@.map_values(|s: SetupStep| setup_step_view(s)) == setup_plan(
                strs(paths@).take(i as int),
                exists@,
            ),
        decreases paths@.len() - i,
    {
        proof {
            assert(strs(paths@).take(i as int + 1).drop_last() =~= strs(paths@).take(i as int));
            assert(strs(paths@).take(i as int + 1).len() == i + 1);
            assert(strs(paths@).take(i as int + 1)[i as int] == paths@[i as int]@);
        }
        let present = i < exists.len() && exists[i];
        if !present {
            let step = if i == 1 {
                SetupStep::WriteConfig { path: paths[i].clone(), text: default_config_text() }
            } else {
                SetupStep::CreateDir { path: paths[i].clone() }
            };
            proof {
                assert(r@.push(step).map_values(|s: SetupStep| setup_step_view(s)) =~= r@.map_values(
                    |s: SetupStep| setup_step_view(s),
                ).push(setup_step_view(step)));
            }
            r.push(step);
        }
        i = i + 1;
    }
    assert(strs(paths@).take(paths@.len() as int) =~= strs(paths@));
    r
}

/// The configuration that setup writes when there is none.
pub fn default_config_text() -> (r: String)
    ensures
        r@ == "offline = false\ncache=true"@,
{
    String::from_str("offline = false\ncache=true")
}

/// The address of the service's list of tags.
pub fn tags_url() -> (r: String)
    ensures
        r@ == "https://cataas.com/api/tags"@,
{
    String::from_str("https://cataas.com/api/tags")
}

/// A JSON text written back with indentation; none when the text is no JSON.
pub uninterp spec fn pretty_json(text: Seq<char>) -> Option<Seq<char>>;

/// Relies on `serde_json::from_str::<serde_json::Value>` to read the text and
/// on `serde_json::to_string_pretty` to write the value back indented. The
/// outcome depends on the text alone.
#[verifier::external_body]
fn reformat_json(text: &str) -> (r: Option<String>)
    ensures
        match r {
            Some(t) => pretty_json(text@) == Some(t@),
            None => pretty_json(text@) is None,
        },
{
    match serde_json::from_str::<serde_json::Value>(text) {
        Ok(v) => serde_json::to_string_pretty(&v).ok(),
        Err(_) => None,
    }
}

/// What the file of tags holds: the service's answer, pretty-printed; none
/// when the answer is no JSON.
pub fn tags_file_text(answer: &str) -> (r: Option<String>)
    ensures
        match r {
            Some(t) => pretty_json(answer@) == Some(t@),
            None => pretty_json(answer@) is None,
        },
{
    reformat_json(answer)
}

} // verus!
