use sysfetch::distro::{get_distro, DistroInfo, UNKNOWN_ID, UNKNOWN_NAME};

#[test]
fn a_missing_descriptor_gives_the_unknown_distribution() {
    assert_eq!(
        get_distro(None),
        DistroInfo { id: String::from("unknown"), name: String::from("Unknown") }
    );
}

#[test]
fn the_unknown_distribution_has_its_stand_ins() {
    let distro = DistroInfo::unknown();
    assert_eq!(distro.id, "unknown");
    assert_eq!(distro.name, "Unknown");
    assert_eq!(UNKNOWN_ID, "unknown");
    assert_eq!(UNKNOWN_NAME, "Unknown");
}

#[test]
fn a_parsed_descriptor_is_passed_on_as_it_is() {
    let arch = DistroInfo { id: String::from("arch"), name: String::from("Arch Linux") };
    assert_eq!(get_distro(Some(arch.clone())), arch);

    let empty = DistroInfo { id: String::new(), name: String::new() };
    assert_eq!(get_distro(Some(empty.clone())), empty);

    let odd = DistroInfo { id: String::from("Pop!_OS"), name: String::from("unknown") };
    assert_eq!(get_distro(Some(odd.clone())), odd);
}
