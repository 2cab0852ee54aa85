use dwl_launcher::model::{Service, ServiceFile};
use dwl_launcher::script::generate_script;

fn service(name: &str, command: &str) -> Service {
    Service { name: name.to_string(), command: command.to_string() }
}

#[test]
fn empty_list_gives_the_head_alone() {
    let file = ServiceFile { service: Vec::new() };
    assert_eq!(generate_script(&file), "#!/bin/bash\n\n");
}

#[test]
fn two_services_give_two_pairs_of_lines() {
    let file = ServiceFile { service: vec![service("A", "echo 1"), service("B", "echo 2")] };
    assert_eq!(generate_script(&file), "#!/bin/bash\n\n# A\necho 1 &\n# B\necho 2 &\n");
}

#[test]
fn one_service_gives_one_pair_of_lines() {
    let file = ServiceFile { service: vec![service("bar", "waybar")] };
    assert_eq!(generate_script(&file), "#!/bin/bash\n\n# bar\nwaybar &\n");
}

#[test]
fn services_keep_their_order() {
    let forward = ServiceFile { service: vec![service("A", "a"), service("B", "b")] };
    let backward = ServiceFile { service: vec![service("B", "b"), service("A", "a")] };
    assert_eq!(generate_script(&forward), "#!/bin/bash\n\n# A\na &\n# B\nb &\n");
    assert_eq!(generate_script(&backward), "#!/bin/bash\n\n# B\nb &\n# A\na &\n");
}

#[test]
fn equal_names_are_kept_apart() {
    let file = ServiceFile { service: vec![service("x", "one"), service("x", "two")] };
    assert_eq!(generate_script(&file), "#!/bin/bash\n\n# x\none &\n# x\ntwo &\n");
}

#[test]
fn texts_are_taken_as_they_are() {
    let file = ServiceFile { service: vec![service("say \"hi\"", "echo '$HOME' && ls; true")] };
    assert_eq!(
        generate_script(&file),
        "#!/bin/bash\n\n# say \"hi\"\necho '$HOME' && ls; true &\n"
    );
}

#[test]
fn empty_texts_still_give_both_lines() {
    let file = ServiceFile { service: vec![service("", "")] };
    assert_eq!(generate_script(&file), "#!/bin/bash\n\n# \n &\n");
}

#[test]
fn script_grows_by_one_pair_per_service() {
    let mut file = ServiceFile { service: Vec::new() };
    let mut expected = String::from("#!/bin/bash\n\n");
    for i in 0..5 {
        file.service.push(service(&format!("n{i}"), &format!("run {i}")));
        expected.push_str(&format!("# n{i}\nrun {i} &\n"));
        assert_eq!(generate_script(&file), expected);
    }
}

#[test]
fn default_services_hold_the_environment_import() {
    let file = ServiceFile::default();
    assert_eq!(
        file,
        ServiceFile {
            service: vec![service(
                "Import environment",
                "/sbin/systemctl --user import-environment DISPLAY WAYLAND_DISPLAY XDG_CURRENT_DESKTOP"
            )]
        }
    );
    assert_eq!(
        generate_script(&file),
        "#!/bin/bash\n\n# Import environment\n/sbin/systemctl --user import-environment DISPLAY WAYLAND_DISPLAY XDG_CURRENT_DESKTOP &\n"
    );
}
