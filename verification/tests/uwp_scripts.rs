use windows_settings::uwp::{
    any_game_bar, escape_single_quotes, game_bar_enabled_of, game_bar_set_script,
    installed_packages_of, is_game_bar_package, package_presence, remove_package_script,
    restore_package_script,
};

#[test]
fn quotes_are_doubled() {
    assert_eq!(escape_single_quotes("O'Brien's"), "O''Brien''s");
    assert_eq!(escape_single_quotes("plain"), "plain");
}

#[test]
fn remove_and_restore_scripts() {
    let r = remove_package_script("Pkg'X");
    assert!(r.contains("Get-AppxPackage -Name 'Pkg''X' -ErrorAction SilentlyContinue;"));
    assert!(r.starts_with("$ErrorActionPreference='Stop';$p = Get-AppxPackage"));
    let r = restore_package_script("Pkg");
    assert!(r.contains("$name = 'Pkg';$pkg = Get-AppxPackage -AllUsers -Name $name"));
    assert_eq!(remove_package_script("microsoft.XBOXgamingoverlay"), game_bar_set_script(false));
    assert_eq!(restore_package_script("Microsoft.XboxGamingOverlay"), game_bar_set_script(true));
    assert!(game_bar_set_script(true).contains("-Name 'AppCaptureEnabled' -Type DWord -Value 1;"));
    assert!(game_bar_set_script(false).ends_with("Write-Output 'Xbox Game Bar отключена без удаления приложения.'"));
}

#[test]
fn installed_packages_and_presence() {
    assert!(installed_packages_of(false, "A\nB").is_empty());
    let installed = installed_packages_of(true, " Microsoft.WindowsStore \r\n\n  \nFoo\n");
    assert_eq!(installed, vec!["Microsoft.WindowsStore".to_string(), "Foo".to_string()]);
    let packages = vec![
        "microsoft.windowsstore".to_string(),
        "Bar".to_string(),
        "Microsoft.XboxGamingOverlay".to_string(),
    ];
    assert!(any_game_bar(&packages));
    assert!(!any_game_bar(&installed));
    let p = package_presence(&packages, &installed, true);
    assert_eq!(
        p,
        vec![
            ("microsoft.windowsstore".to_string(), true),
            ("Bar".to_string(), false),
            ("Microsoft.XboxGamingOverlay".to_string(), true),
        ]
    );
    assert!(is_game_bar_package("MICROSOFT.XBOXGAMINGOVERLAY"));
    assert!(game_bar_enabled_of(true, " Enabled \n"));
    assert!(!game_bar_enabled_of(false, "enabled"));
    assert!(!game_bar_enabled_of(true, "disabled"));
}
