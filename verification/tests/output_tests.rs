use aochelper::output::{output_directory, output_file_name, output_path};
use std::path::PathBuf;

#[test]
fn day_five_of_2022_below_out() {
    assert_eq!(output_path("out/", 2022, 5), "out/2022.05");
}

#[test]
fn separator_is_added_where_it_lacks() {
    assert_eq!(output_path("out", 2022, 5), "out/2022.05");
    assert_eq!(output_path("a/b/c", 2015, 25), "a/b/c/2015.25");
    assert_eq!(output_path("/", 2015, 1), "/2015.01");
    assert_eq!(output_path("", 2015, 1), "2015.01");
}

#[test]
fn path_is_what_pushing_the_name_gives() {
    for dir in ["", "out", "out/", "/", "/tmp/x", "a//", "inputs", "é/ü"] {
        let mut pushed = PathBuf::from(dir);
        pushed.push(output_file_name(2022, 5));
        assert_eq!(PathBuf::from(output_path(dir, 2022, 5)), pushed);
        assert_eq!(output_path(dir, 2022, 5), pushed.to_str().unwrap());
    }
}

#[test]
fn file_name_pads_the_day_to_two_digits() {
    assert_eq!(output_file_name(2022, 5), "2022.05");
    assert_eq!(output_file_name(2022, 0), "2022.00");
    assert_eq!(output_file_name(2022, 9), "2022.09");
    assert_eq!(output_file_name(2022, 10), "2022.10");
    assert_eq!(output_file_name(2022, 25), "2022.25");
    assert_eq!(output_file_name(2022, 255), "2022.255");
    assert_eq!(output_file_name(7, 1), "7.01");
}

#[test]
fn file_name_is_the_formatted_pair() {
    for year in [0u16, 9, 99, 2015, 2023, 65535] {
        for day in 0..=u8::MAX {
            assert_eq!(output_file_name(year, day), format!("{}.{:02}", year, day));
        }
    }
}

#[test]
fn directory_of_the_command_goes_first() {
    assert_eq!(
        output_directory(Some(String::from("flag")), Some(String::from("configured"))),
        "flag"
    );
    assert_eq!(output_directory(Some(String::from("flag")), None), "flag");
}

#[test]
fn configured_directory_goes_second() {
    assert_eq!(output_directory(None, Some(String::from("configured"))), "configured");
}

#[test]
fn directory_defaults_to_inputs() {
    assert_eq!(output_directory(None, None), "inputs");
}
