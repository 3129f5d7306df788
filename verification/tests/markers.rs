use buildsys::markers::{
    clean_plan, harvest_plan, is_marker_file_name, mark_file_name, strip_marker_file_name,
};

fn path(components: &[&str]) -> Vec<String> {
    components.iter().map(|c| c.to_string()).collect()
}

#[test]
fn marker_names() {
    assert!(is_marker_file_name("b.rpm.buildsys_marker"));
    assert!(!is_marker_file_name("b.rpm"));
    // The bare suffix records no artifact.
    assert!(!is_marker_file_name(".buildsys_marker"));
    assert_eq!(mark_file_name("b.rpm"), "b.rpm.buildsys_marker");
    assert_eq!(strip_marker_file_name("b.rpm.buildsys_marker"), "b.rpm");
    assert_eq!(strip_marker_file_name(&mark_file_name("img.qcow2")), "img.qcow2");
}

#[test]
fn marker_sweep() {
    // One artifact `a/b.rpm` recorded by `a/b.rpm.buildsys_marker`: the
    // clean plan removes both files and considers `a/` under both roots.
    let markers = vec![path(&["a", "b.rpm.buildsys_marker"])];
    let plan = clean_plan(&markers);
    assert_eq!(plan.output_removals, vec![path(&["a", "b.rpm"])]);
    assert_eq!(plan.marker_removals, markers);
    assert_eq!(plan.output_dirs, vec![path(&["a"])]);
    assert_eq!(plan.marker_dirs, vec![path(&["a"])]);
}

#[test]
fn empty_marker_dir_clean_is_noop() {
    let markers: Vec<Vec<String>> = Vec::new();
    let plan = clean_plan(&markers);
    assert!(plan.output_removals.is_empty());
    assert!(plan.marker_removals.is_empty());
    assert!(plan.output_dirs.is_empty());
    assert!(plan.marker_dirs.is_empty());
}

#[test]
fn clean_sweeps_nested_directories_children_first() {
    let markers = vec![
        path(&["x", "y", "z.tar.buildsys_marker"]),
        path(&["x", "w.rpm.buildsys_marker"]),
    ];
    let plan = clean_plan(&markers);
    assert_eq!(
        plan.output_removals,
        vec![path(&["x", "y", "z.tar"]), path(&["x", "w.rpm"])]
    );
    // Deepest first, no duplicates, roots excluded.
    assert_eq!(plan.output_dirs, vec![path(&["x", "y"]), path(&["x"])]);
    assert_eq!(plan.marker_dirs, vec![path(&["x", "y"]), path(&["x"])]);
}

#[test]
fn harvest_marks_every_artifact() {
    let artifacts = vec![path(&["a", "b.rpm"]), path(&["img.qcow2"])];
    let plan = harvest_plan(&artifacts);
    assert_eq!(plan.moves, artifacts);
    assert_eq!(
        plan.markers_to_create,
        vec![
            path(&["a", "b.rpm.buildsys_marker"]),
            path(&["img.qcow2.buildsys_marker"]),
        ]
    );
}

#[test]
fn clean_after_harvest_removes_what_harvest_recorded() {
    // A previous build left `a/b.rpm`; the current build does not produce
    // it: the pre-build clean removes the artifact, its marker, and the
    // emptied directory.
    let artifacts = vec![path(&["a", "b.rpm"])];
    let harvested = harvest_plan(&artifacts);
    let plan = clean_plan(&harvested.markers_to_create);
    assert_eq!(plan.output_removals, artifacts);
    assert_eq!(plan.marker_removals, harvested.markers_to_create);
    assert_eq!(plan.output_dirs, vec![path(&["a"])]);
}
