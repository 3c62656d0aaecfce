use dbflux::icon_resource::icon_resource_script;

#[test]
fn icon_script_escapes_windows_paths() {
    assert_eq!(
        icon_resource_script(r"C:\build\resources\branding\stable\icon.ico"),
        "1 ICON \"C:\\\\build\\\\resources\\\\branding\\\\stable\\\\icon.ico\"\n"
    );
    assert_eq!(icon_resource_script("/opt/icon.ico"), "1 ICON \"/opt/icon.ico\"\n");
}
