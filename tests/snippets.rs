use std::collections::{BTreeMap, BTreeSet, VecDeque};
use std::io;

use bts::args::{NewArgs, RegisterArgs};
use bts::error::Error;
use bts::protocol::{Action, Event, Place, Root};
use bts::replicate::{Replicator, Stage};
use bts::session::{Phase, Session};
use bts::template_name::TemplateName;

#[derive(Clone, Debug, PartialEq)]
enum Node {
    File(String),
    Dir,
}

type FsPath = Vec<String>;

fn p(s: &str) -> FsPath {
    s.split('/').filter(|x| !x.is_empty()).map(|x| x.to_string()).collect()
}

fn fail(what: &str) -> io::Error {
    io::Error::new(io::ErrorKind::Other, what.to_string())
}

/// A small in-memory filesystem.
struct Fs {
    nodes: BTreeMap<FsPath, Node>,
    unreadable: BTreeSet<FsPath>,
    read_only: bool,
}

impl Fs {
    fn new() -> Fs {
        let mut nodes = BTreeMap::new();
        nodes.insert(Vec::new(), Node::Dir);
        Fs { nodes, unreadable: BTreeSet::new(), read_only: false }
    }

    fn add_dir(&mut self, path: &str) {
        let path = p(path);
        for i in 0..=path.len() {
            self.nodes.entry(path[..i].to_vec()).or_insert(Node::Dir);
        }
    }

    fn add_file(&mut self, path: &str, content: &str) {
        let path = p(path);
        for i in 0..path.len() {
            self.nodes.entry(path[..i].to_vec()).or_insert(Node::Dir);
        }
        self.nodes.insert(path, Node::File(content.to_string()));
    }

    fn has(&self, path: &FsPath) -> bool {
        self.nodes.contains_key(path)
    }

    fn list(&self, path: &FsPath) -> io::Result<VecDeque<FsPath>> {
        match self.nodes.get(path) {
            Some(Node::Dir) => Ok(self
                .nodes
                .keys()
                .filter(|k| k.len() == path.len() + 1 && k.starts_with(path))
                .cloned()
                .collect()),
            _ => Err(fail("not a directory")),
        }
    }

    fn is_file(&self, path: &FsPath) -> io::Result<bool> {
        if self.unreadable.contains(path) {
            return Err(fail("unreadable"));
        }
        match self.nodes.get(path) {
            Some(Node::File(_)) => Ok(true),
            Some(Node::Dir) => Ok(false),
            None => Err(fail("not found")),
        }
    }

    fn create_all(&mut self, path: &FsPath) -> io::Result<()> {
        if self.read_only {
            return Err(fail("read-only"));
        }
        for i in 0..=path.len() {
            match self.nodes.get(&path[..i].to_vec()) {
                Some(Node::File(_)) => return Err(fail("a file is in the way")),
                Some(Node::Dir) => {}
                None => {
                    self.nodes.insert(path[..i].to_vec(), Node::Dir);
                }
            }
        }
        Ok(())
    }

    fn remove_all(&mut self, path: &FsPath) -> io::Result<()> {
        if self.read_only {
            return Err(fail("read-only"));
        }
        let doomed: Vec<FsPath> = self.nodes.keys().filter(|k| k.starts_with(path)).cloned().collect();
        for k in doomed {
            self.nodes.remove(&k);
        }
        Ok(())
    }

    fn copy(&mut self, from: &FsPath, to: &FsPath) -> io::Result<()> {
        if self.read_only {
            return Err(fail("read-only"));
        }
        let content = match self.nodes.get(from) {
            Some(Node::File(c)) => c.clone(),
            _ => return Err(fail("not a file")),
        };
        match self.nodes.get(&to[..to.len() - 1].to_vec()) {
            Some(Node::Dir) => {}
            _ => return Err(fail("no parent directory")),
        }
        if let Some(Node::Dir) = self.nodes.get(to) {
            return Err(fail("a directory is in the way"));
        }
        self.nodes.insert(to.clone(), Node::File(content));
        Ok(())
    }

    /// Every path strictly below `root`, relative to it, with its node.
    fn tree(&self, root: &str) -> Vec<(String, Node)> {
        let root = p(root);
        self.nodes
            .iter()
            .filter(|(k, _)| k.len() > root.len() && k.starts_with(&root))
            .map(|(k, v)| (k[root.len()..].join("/"), v.clone()))
            .collect()
    }
}

fn done(r: io::Result<()>) -> Event {
    match r {
        Ok(()) => Event::Done,
        Err(e) => Event::Failed(e),
    }
}

struct Level {
    listing: VecDeque<FsPath>,
    dest: FsPath,
    current: Option<FsPath>,
}

struct Roots {
    config: FsPath,
    target: Option<FsPath>,
    source: Option<FsPath>,
    cwd: FsPath,
}

fn resolve(roots: &Roots, session: &Session, place: Place) -> FsPath {
    let (root, parts) = session.resolve(place);
    let mut path = match root {
        Root::Config => roots.config.clone(),
        Root::Target => roots.target.clone().unwrap(),
        Root::Source => roots.source.clone().unwrap(),
    };
    for part in parts {
        path.extend(p(&part));
    }
    path
}

/// Carries out a session's actions on the in-memory filesystem, as the
/// command line driver does on the real one.
fn run(fs: &mut Fs, mut session: Session, first: Action, mut roots: Roots) -> Result<(), Error> {
    let mut pending: Option<VecDeque<FsPath>> = None;
    let mut levels: Vec<Level> = Vec::new();
    let mut action = first;
    loop {
        let event = match &action {
            Action::Finish(_) => break,
            Action::ResolveWorkingDir => {
                roots.target = Some(roots.cwd.clone());
                Event::Done
            }
            Action::OpenListing(place) => match fs.list(&resolve(&roots, &session, *place)) {
                Ok(l) => {
                    pending = Some(l);
                    Event::Done
                }
                Err(e) => Event::Failed(e),
            },
            Action::PeekListing => Event::Flag(!pending.as_ref().unwrap().is_empty()),
            Action::Exists(place) => Event::Flag(fs.has(&resolve(&roots, &session, *place))),
            Action::RemoveAll(place) => done(fs.remove_all(&resolve(&roots, &session, *place))),
            Action::Inspect(place) => match fs.is_file(&resolve(&roots, &session, *place)) {
                Ok(b) => Event::Flag(b),
                Err(e) => Event::Failed(e),
            },
            Action::CheckFileName(place) => Event::Flag(!resolve(&roots, &session, *place).is_empty()),
            Action::CreateAll(place) => done(fs.create_all(&resolve(&roots, &session, *place))),
            Action::CopyFileInto(from, into) => {
                let from = resolve(&roots, &session, *from);
                let mut to = resolve(&roots, &session, *into);
                to.push(from.last().unwrap().clone());
                done(fs.copy(&from, &to))
            }
            Action::BeginCopy(place) => {
                let dest = resolve(&roots, &session, *place);
                levels.push(Level { listing: pending.take().unwrap(), dest, current: None });
                Event::Done
            }
            Action::Leave => {
                levels.pop();
                Event::Done
            }
            other => {
                let top = levels.last_mut().unwrap();
                match other {
                    Action::CheckDest => Event::Flag(fs.has(&top.dest)),
                    Action::CreateDest => done(fs.create_all(&top.dest)),
                    Action::NextEntry => match top.listing.pop_front() {
                        None => Event::End,
                        Some(entry) => {
                            top.current = Some(entry);
                            Event::Entry
                        }
                    },
                    Action::ReadKind => match fs.is_file(top.current.as_ref().unwrap()) {
                        Ok(b) => Event::Flag(b),
                        Err(e) => Event::Failed(e),
                    },
                    Action::CopyEntry => {
                        let entry = top.current.clone().unwrap();
                        let mut to = top.dest.clone();
                        to.push(entry.last().unwrap().clone());
                        done(fs.copy(&entry, &to))
                    }
                    Action::OpenEntry => {
                        let entry = top.current.clone().unwrap();
                        match fs.list(&entry) {
                            Ok(listing) => {
                                let mut dest = top.dest.clone();
                                dest.push(entry.last().unwrap().clone());
                                levels.push(Level { listing, dest, current: None });
                                Event::Done
                            }
                            Err(e) => Event::Failed(e),
                        }
                    }
                    _ => unreachable!(),
                }
            }
        };
        assert!(session.accepts_event(&event));
        action = session.step(event);
    }
    match action {
        Action::Finish(result) => result,
        _ => unreachable!(),
    }
}

fn instantiate(fs: &mut Fs, name: &str, target: Option<&str>, with_parent: bool, max_depth: u8) -> Result<(), Error> {
    let args = NewArgs {
        with_parent,
        template_name: TemplateName::from(name),
        target_path: target.map(std::path::PathBuf::from),
        max_depth,
    };
    let (session, first) = args.session();
    let roots = Roots { config: p("cfg"), target: target.map(p), source: None, cwd: p("work") };
    run(fs, session, first, roots)
}

fn capture(fs: &mut Fs, name: &str, source: &str, append: bool, max_depth: u8) -> Result<(), Error> {
    let args = RegisterArgs {
        template_name: TemplateName::from(name),
        target_path: std::path::PathBuf::from(source),
        append,
        max_depth,
    };
    let (session, first) = args.session();
    let roots = Roots { config: p("cfg"), target: None, source: Some(p(source)), cwd: p("work") };
    run(fs, session, first, roots)
}

fn file(path: &str, content: &str) -> (String, Node) {
    (path.to_string(), Node::File(content.to_string()))
}

fn dir(path: &str) -> (String, Node) {
    (path.to_string(), Node::Dir)
}

fn scenario_store() -> Fs {
    let mut fs = Fs::new();
    fs.add_file("cfg/templates/tmpl/a.txt", "A");
    fs.add_file("cfg/templates/tmpl/sub/b.txt", "B");
    fs
}

#[test]
fn max_depth_one_copies_first_nested_level() {
    let mut fs = scenario_store();
    instantiate(&mut fs, "tmpl", Some("dest"), false, 1).unwrap();
    assert_eq!(fs.tree("dest"), vec![file("a.txt", "A"), dir("sub"), file("sub/b.txt", "B")]);
}

#[test]
fn max_depth_zero_skips_nested_directories() {
    let mut fs = scenario_store();
    instantiate(&mut fs, "tmpl", Some("dest"), false, 0).unwrap();
    assert_eq!(fs.tree("dest"), vec![file("a.txt", "A")]);
}

fn deep_store() -> Fs {
    let mut fs = Fs::new();
    fs.add_file("cfg/templates/deep/top.txt", "0");
    fs.add_file("cfg/templates/deep/one/one.txt", "1");
    fs.add_file("cfg/templates/deep/one/two/two.txt", "2");
    fs.add_file("cfg/templates/deep/one/two/three/three.txt", "3");
    fs
}

#[test]
fn nothing_beyond_max_depth_is_created() {
    let mut fs = deep_store();
    instantiate(&mut fs, "deep", Some("dest"), false, 1).unwrap();
    assert_eq!(
        fs.tree("dest"),
        vec![dir("one"), file("one/one.txt", "1"), file("top.txt", "0")]
    );
}

#[test]
fn tree_within_bound_is_copied_whole() {
    for max_depth in [3u8, 4, 32, 255] {
        let mut fs = deep_store();
        instantiate(&mut fs, "deep", Some("dest"), false, max_depth).unwrap();
        assert_eq!(fs.tree("dest"), fs.tree("cfg/templates/deep"));
    }
}

#[test]
fn copy_merges_into_existing_destination() {
    let mut fs = scenario_store();
    fs.add_file("dest/old.txt", "O");
    fs.add_dir("dest/sub");
    instantiate(&mut fs, "tmpl", Some("dest"), false, 1).unwrap();
    assert_eq!(
        fs.tree("dest"),
        vec![file("a.txt", "A"), file("old.txt", "O"), dir("sub"), file("sub/b.txt", "B")]
    );
}

#[test]
fn empty_snippet_is_refused() {
    let mut fs = Fs::new();
    fs.add_dir("cfg/templates/empty");
    let r = instantiate(&mut fs, "empty", Some("dest/inner"), true, 32);
    assert!(matches!(r, Err(Error::EmptyDirectory)));
    assert!(!fs.has(&p("dest")));
}

#[test]
fn missing_snippet_is_a_lookup_error() {
    let mut fs = Fs::new();
    let r = instantiate(&mut fs, "nothing", Some("dest"), false, 32);
    assert!(matches!(r, Err(Error::Lookup(_))));
    assert!(!fs.has(&p("dest")));
}

#[test]
fn unreadable_entry_is_a_lookup_error() {
    let mut fs = scenario_store();
    fs.unreadable.insert(p("cfg/templates/tmpl/sub"));
    let r = instantiate(&mut fs, "tmpl", Some("dest"), false, 5);
    assert!(matches!(r, Err(Error::Lookup(_))));
    // the sibling read before it stays copied
    assert_eq!(fs.tree("dest"), vec![file("a.txt", "A")]);
}

#[test]
fn failed_write_is_a_copy_error() {
    let mut fs = scenario_store();
    fs.read_only = true;
    let r = instantiate(&mut fs, "tmpl", Some("dest"), false, 5);
    assert!(matches!(r, Err(Error::CopyError(_))));
}

#[test]
fn missing_target_means_working_directory() {
    let mut fs = scenario_store();
    instantiate(&mut fs, "tmpl", None, false, 0).unwrap();
    assert_eq!(fs.tree("work"), vec![file("a.txt", "A")]);
}

#[test]
fn with_parent_nests_under_the_snippet_name() {
    let mut fs = Fs::new();
    fs.add_file("cfg/templates/basic/template01/file.txt", "F");
    instantiate(&mut fs, "basic/template01", Some("D"), true, 32).unwrap();
    assert_eq!(
        fs.tree("D"),
        vec![dir("basic"), dir("basic/template01"), file("basic/template01/file.txt", "F")]
    );
}

#[test]
fn without_parent_copies_into_the_target() {
    let mut fs = Fs::new();
    fs.add_file("cfg/templates/basic/template01/file.txt", "F");
    instantiate(&mut fs, "basic/template01", Some("D"), false, 32).unwrap();
    assert_eq!(fs.tree("D"), vec![file("file.txt", "F")]);
}

#[test]
fn single_file_capture_keeps_only_its_name() {
    let mut fs = Fs::new();
    fs.add_file("a/b/report.txt", "R");
    capture(&mut fs, "x", "a/b/report.txt", false, 32).unwrap();
    assert_eq!(fs.tree("cfg"), vec![dir("templates"), dir("templates/x"), file("templates/x/report.txt", "R")]);
}

#[test]
fn capture_without_append_replaces_the_snippet() {
    let mut fs = Fs::new();
    fs.add_file("src1/rust.txt", "rust");
    fs.add_file("src1/deep/c.txt", "c");
    fs.add_file("src2/go.txt", "go");
    capture(&mut fs, "langs", "src1", false, 32).unwrap();
    capture(&mut fs, "langs", "src2", false, 32).unwrap();
    assert_eq!(fs.tree("cfg/templates/langs"), vec![file("go.txt", "go")]);
}

#[test]
fn capture_with_append_adds_to_the_snippet() {
    let mut fs = Fs::new();
    fs.add_file("pets/cats.txt", "meow");
    fs.add_file("pets/dogs/rex.txt", "woof");
    capture(&mut fs, "animals/domestic", "pets/cats.txt", true, 1).unwrap();
    capture(&mut fs, "animals/domestic", "pets/dogs", true, 1).unwrap();
    assert_eq!(
        fs.tree("cfg/templates/animals/domestic"),
        vec![file("cats.txt", "meow"), file("rex.txt", "woof")]
    );
}

#[test]
fn capture_of_missing_source_is_a_lookup_error() {
    let mut fs = Fs::new();
    let r = capture(&mut fs, "x", "nowhere", true, 1);
    assert!(matches!(r, Err(Error::Lookup(_))));
}

#[test]
fn capture_into_read_only_store_is_a_copy_error() {
    let mut fs = Fs::new();
    fs.add_file("a/report.txt", "R");
    fs.add_dir("cfg/templates/x");
    fs.read_only = true;
    let r = capture(&mut fs, "x", "a/report.txt", false, 1);
    assert!(matches!(r, Err(Error::CopyError(_))));
}

#[test]
fn file_without_name_is_refused() {
    let (mut session, first) = Session::capture(&TemplateName::from("x"), true, 3);
    assert!(matches!(first, Action::Inspect(Place::Source)));
    let a = session.step(Event::Flag(true));
    assert!(matches!(a, Action::CheckFileName(Place::Source)));
    let a = session.step(Event::Flag(false));
    assert!(matches!(a, Action::Finish(Err(Error::MissingFilename))));
    assert_eq!(session.phase, Phase::Finished);
}

#[test]
fn capture_first_asks_for_the_store_unless_appending() {
    let (session, first) = Session::capture(&TemplateName::from("x"), false, 3);
    assert!(matches!(first, Action::Exists(Place::Store)));
    let (root, parts) = session.resolve(Place::Store);
    assert_eq!(root, Root::Config);
    assert_eq!(parts, vec!["templates".to_string(), "x".to_string()]);
}

#[test]
fn level_past_the_bound_is_left_without_error() {
    let (mut r, first) = Replicator::start(0);
    assert!(matches!(first, Action::CheckDest));
    assert!(matches!(r.step(Event::Flag(true)), Action::NextEntry));
    assert!(matches!(r.step(Event::Entry), Action::ReadKind));
    assert!(matches!(r.step(Event::Flag(false)), Action::OpenEntry));
    assert!(matches!(r.step(Event::Done), Action::Leave));
    assert_eq!(r.levels, 1);
    assert_eq!(r.stage, Stage::Resuming);
    assert!(matches!(r.step(Event::Done), Action::NextEntry));
    assert!(matches!(r.step(Event::End), Action::Finish(Ok(()))));
    assert_eq!(r.levels, 0);
}

#[test]
fn missing_destination_is_created() {
    let (mut r, _) = Replicator::start(2);
    assert!(matches!(r.step(Event::Flag(false)), Action::CreateDest));
    assert!(matches!(r.step(Event::Failed(fail("denied"))), Action::Finish(Err(Error::CopyError(_)))));
}

#[test]
fn name_for_backslash_platform() {
    let n = TemplateName::from("wiki/cinematography");
    assert_eq!(n.normalized_for('\\'), "wiki\\cinematography".to_string());
    assert_eq!(n.normalized_for('/'), "wiki/cinematography".to_string());
}

#[test]
fn name_on_this_platform() {
    let n: TemplateName = "config/mysql".parse().unwrap();
    let expected = if std::path::MAIN_SEPARATOR == '\\' { "config\\mysql" } else { "config/mysql" };
    assert_eq!(n.normalized(), expected.to_string());
    assert_eq!(TemplateName::from("a/b".to_string()).0, "a/b".to_string());
}
