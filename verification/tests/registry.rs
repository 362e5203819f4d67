use view_shell::registry::{commands, plugins};
use view_shell::{Command, Plugin, Shell};

#[test]
fn plugins_come_in_registration_order() {
    assert_eq!(
        plugins(),
        vec![Plugin::Store, Plugin::Dialog, Plugin::Fs, Plugin::Opener]
    );
}

#[test]
fn no_plugin_is_listed_twice() {
    let list = plugins();
    for (i, a) in list.iter().enumerate() {
        for b in list.iter().skip(i + 1) {
            assert_ne!(a, b);
        }
    }
}

#[test]
fn the_one_command_is_create_main_view() {
    assert_eq!(commands(), vec![Command::CreateMainView]);
}

#[test]
fn command_is_invoked_by_its_name() {
    assert_eq!(Command::CreateMainView.name(), "create_main_view");
}

#[test]
fn bootstrap_registers_everything_and_opens_nothing() {
    for slots in [0usize, 1, 2, 3, 17, usize::MAX] {
        let shell = Shell::bootstrap(slots);
        assert_eq!(
            shell.plugins(),
            &[Plugin::Store, Plugin::Dialog, Plugin::Fs, Plugin::Opener][..]
        );
        assert_eq!(shell.commands(), &[Command::CreateMainView][..]);
        assert_eq!(shell.slots(), slots);
        assert_eq!(shell.window_count(), 0);
        assert!(shell.windows().is_empty());
    }
}

#[test]
fn registration_survives_invocations() {
    let mut shell = Shell::bootstrap(2);
    for built in [true, false, true, true, false] {
        let _ = shell.create_main_view(built);
        assert_eq!(shell.plugins(), plugins().as_slice());
        assert_eq!(shell.commands(), commands().as_slice());
        assert_eq!(shell.slots(), 2);
    }
}
