use yapm::error::CliError;
use yapm::location::Location;
use yapm::writer::{DecompressionJob, Removal, Staging, WorkerSignal, Writer, STRIP_DEPTH};

fn text(value: &str) -> String {
    String::from(value)
}

fn install_root() -> Location {
    Location { base: text("/home/u/.yapm"), below: Vec::new() }
}

#[test]
fn strip_depth_is_one() {
    assert_eq!(STRIP_DEPTH, 1);
}

#[test]
fn add_bundle_unpacks_into_the_package_directory_with_strip_depth_one() {
    let writer = Writer::new(install_root());
    let job = writer.add_bundle(text("pkg"), text("/tmp/pkg.tar.gz"));
    assert_eq!(
        job,
        DecompressionJob {
            id: text("pkg"),
            archive: text("/tmp/pkg.tar.gz"),
            destination: Location { base: text("/home/u/.yapm"), below: vec![text("pkg")] },
            strip_depth: 1,
        }
    );
}

#[test]
fn add_bundle_below_a_nested_install_root() {
    let root = Location { base: text("/home/u"), below: vec![text(".yapm")] };
    let writer = Writer::new(root);
    let job = writer.add_bundle(text("left-pad"), text("bundle.zip"));
    assert_eq!(
        job.destination,
        Location { base: text("/home/u"), below: vec![text(".yapm"), text("left-pad")] }
    );
    assert_eq!(job.strip_depth, 1);
    assert_eq!(job.id, "left-pad");
    assert_eq!(job.archive, "bundle.zip");
}

#[test]
fn add_bundle_takes_any_id() {
    let writer = Writer::new(install_root());
    let job = writer.add_bundle(text("../odd id"), text("a.zip"));
    assert_eq!(job.destination.below, vec![text("../odd id")]);
}

#[test]
fn decompress_keeps_source_and_destination_as_given() {
    let writer = Writer::new(install_root());
    let to = Location { base: text("/elsewhere"), below: vec![text("x"), text("y")] };
    let job = writer.decompress(text("pkg"), text("/tmp/a.tar"), to);
    assert_eq!(
        job,
        DecompressionJob {
            id: text("pkg"),
            archive: text("/tmp/a.tar"),
            destination: Location { base: text("/elsewhere"), below: vec![text("x"), text("y")] },
            strip_depth: 1,
        }
    );
}

#[test]
fn extracted_job_succeeds() {
    let writer = Writer::new(install_root());
    let job = writer.add_bundle(text("pkg"), text("a.zip"));
    assert_eq!(job.finish(WorkerSignal::Extracted), Ok(()));
}

#[test]
fn failed_job_reports_package_and_cause() {
    let writer = Writer::new(install_root());
    let job = writer.add_bundle(text("pkg"), text("a.zip"));
    assert_eq!(
        job.finish(WorkerSignal::Failed(text("no compressor found"))),
        Err(CliError::DecompressError { id: text("pkg"), message: text("no compressor found") })
    );
}

#[test]
fn aborted_worker_is_its_own_kind_of_error() {
    let writer = Writer::new(install_root());
    let aborted = writer.add_bundle(text("pkg"), text("a.zip")).finish(WorkerSignal::Aborted);
    let failed =
        writer.add_bundle(text("pkg"), text("a.zip")).finish(WorkerSignal::Failed(text("")));
    assert_eq!(aborted, Err(CliError::WorkerAborted { id: text("pkg") }));
    assert_ne!(aborted, failed);
    assert!(matches!(failed, Err(CliError::DecompressError { .. })));
}

#[test]
fn remove_of_installed_package_deletes_its_directory() {
    let writer = Writer::new(install_root());
    assert_eq!(
        writer.remove(text("pkg"), true),
        Removal::Delete(Location { base: text("/home/u/.yapm"), below: vec![text("pkg")] })
    );
}

#[test]
fn remove_of_absent_package_asks_for_nothing() {
    let writer = Writer::new(install_root());
    assert_eq!(writer.remove(text("pkg"), false), Removal::Nothing);
}

#[test]
fn remove_twice_ends_where_remove_once_ends() {
    let writer = Writer::new(install_root());
    let package = Location { base: text("/home/u/.yapm"), below: vec![text("pkg")] };
    let other = Location { base: text("/home/u/.yapm"), below: vec![text("other")] };
    let mut directories = vec![other.clone(), package.clone()];

    for _ in 0..2 {
        let installed = directories.contains(&package);
        match writer.remove(text("pkg"), installed) {
            Removal::Delete(directory) => directories.retain(|d| *d != directory),
            Removal::Nothing => {},
        }
        assert_eq!(directories, vec![other.clone()]);
    }
}

#[test]
fn stash_bundle_stages_under_the_id() {
    let writer = Writer::new(install_root());
    assert_eq!(
        writer.stash_bundle(text("pkg"), text("/tmp/pkg.tar.gz")),
        Staging { key: text("pkg"), archive: text("/tmp/pkg.tar.gz") }
    );
}

#[test]
fn stash_bundle_again_gives_the_same_staging() {
    let writer = Writer::new(install_root());
    let first = writer.stash_bundle(text("pkg"), text("/tmp/pkg.tar.gz"));
    let second = writer.stash_bundle(text("pkg"), text("/tmp/pkg.tar.gz"));
    assert_eq!(first, second);
    let mut held: Vec<(String, String)> = Vec::new();
    for staging in [first, second] {
        held.retain(|(key, _)| *key != staging.key);
        held.push((staging.key, staging.archive));
        assert_eq!(held, vec![(text("pkg"), text("/tmp/pkg.tar.gz"))]);
    }
}

#[test]
fn location_clone_is_equal() {
    let location = Location { base: text("/opt"), below: vec![text("a"), text("b")] };
    assert_eq!(location.clone(), location);
    assert_eq!(Location::root(text("")).clone(), Location::root(text("")));
}

#[test]
fn location_root_and_child() {
    let root = Location::root(text("/opt/yapm"));
    assert_eq!(root, Location { base: text("/opt/yapm"), below: Vec::new() });
    let child = root.child(text("a")).child(text("b"));
    assert_eq!(child, Location { base: text("/opt/yapm"), below: vec![text("a"), text("b")] });
    assert_eq!(root, Location { base: text("/opt/yapm"), below: Vec::new() });
}
