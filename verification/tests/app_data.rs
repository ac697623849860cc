use mediary_core::data::app_data::get_app_data_file;

#[test]
fn get_app_data_file_joins_relative_names() {
    assert_eq!(
        get_app_data_file("/home/user/.local/share/mediary", "mediary.db"),
        "/home/user/.local/share/mediary/mediary.db"
    );
    assert_eq!(get_app_data_file("data", "x/y.db"), "data/x/y.db");
}

#[test]
fn get_app_data_file_edge_cases() {
    // an absolute name replaces the directory
    assert_eq!(get_app_data_file("/data", "/etc/db"), "/etc/db");
    // a directory that ends in a separator gets no second one
    assert_eq!(get_app_data_file("/data/", "m.db"), "/data/m.db");
    // an empty directory leaves the name as it is
    assert_eq!(get_app_data_file("", "m.db"), "m.db");
}
