use design_patterns::command::{
    Cd, Command, Light, LightOffCommand, LightOnCommand, MacroCommand, NoCommand, RemoteControl,
    Stereo, StereoOffCommand, StereoOnWithCdCommand,
};

#[test]
fn test_command() {
    let living_room_light = Light::new("Living Room");
    let kitchen_room_light = Light::new("Kitchen Room");
    let stereo = Stereo::new("Living Room");

    let living_room_light_on = LightOnCommand {
        light: living_room_light.clone(),
    };
    let living_room_light_off = LightOffCommand {
        light: living_room_light,
    };

    let kitchen_room_light_on = LightOnCommand {
        light: kitchen_room_light.clone(),
    };
    let kitchen_room_light_off = LightOffCommand {
        light: kitchen_room_light,
    };

    let stereo_on_with_cd = StereoOnWithCdCommand {
        stereo: stereo.clone(),
    };
    let stereo_off = StereoOffCommand { stereo: stereo };

    let mut remote_control = RemoteControl::new();
    remote_control.set_command(
        0,
        Command::LightOn(living_room_light_on),
        Command::LightOff(living_room_light_off),
    );
    remote_control.set_command(
        1,
        Command::LightOn(kitchen_room_light_on),
        Command::LightOff(kitchen_room_light_off),
    );
    remote_control.set_command(
        3,
        Command::StereoOnWithCd(stereo_on_with_cd),
        Command::StereoOff(stereo_off),
    );
    assert_eq!(
        remote_control.to_string(),
        "\n------ Remote Control ------\n\
         [slot 0] LightOnCommand    LightOffCommand\n\
         [slot 1] LightOnCommand    LightOffCommand\n\
         [slot 2] NoCommand    NoCommand\n\
         [slot 3] StereoOnWithCdCommand    StereoOffCommand\n\
         [slot 4] NoCommand    NoCommand\n\
         [slot 5] NoCommand    NoCommand\n\
         [slot 6] NoCommand    NoCommand\n"
    );
}

#[test]
fn test_command_undo() {
    let living_room_light = Light::new("Living Room");
    let living_room_light_on = LightOnCommand {
        light: living_room_light.clone(),
    };
    let living_room_light_off = LightOffCommand {
        light: living_room_light,
    };

    let mut remote_control = RemoteControl::new();
    remote_control.set_command(
        0,
        Command::LightOn(living_room_light_on),
        Command::LightOff(living_room_light_off),
    );

    assert_eq!(
        remote_control.on_button_was_pushed(0),
        "Living Room Light is on\n"
    );
    assert_eq!(
        remote_control.off_button_was_pushed(0),
        "Living Room Light is off\n"
    );
    println!("{}", remote_control.to_string());
    assert_eq!(
        remote_control.undo_button_was_pushed(),
        "Living Room Light is on\n"
    );
    assert_eq!(
        remote_control.off_button_was_pushed(0),
        "Living Room Light is off\n"
    );
    assert_eq!(
        remote_control.on_button_was_pushed(0),
        "Living Room Light is on\n"
    );
    println!("{}", remote_control.to_string());
    assert_eq!(
        remote_control.undo_button_was_pushed(),
        "Living Room Light is off\n"
    );
}

#[test]
fn test_macro_command() {
    let living_room_light = Light::new("Living Room");
    let kitchen_room_light = Light::new("Kitchen Room");
    let stereo = Stereo::new("Living Room");

    let living_room_light_on = LightOnCommand {
        light: living_room_light.clone(),
    };
    let living_room_light_off = LightOffCommand {
        light: living_room_light,
    };

    let kitchen_room_light_on = LightOnCommand {
        light: kitchen_room_light.clone(),
    };
    let kitchen_room_light_off = LightOffCommand {
        light: kitchen_room_light,
    };

    let stereo_on_with_cd = StereoOnWithCdCommand {
        stereo: stereo.clone(),
    };
    let stereo_off = StereoOffCommand { stereo: stereo };

    let party_on_command = MacroCommand {
        commands: vec![
            Command::LightOn(living_room_light_on),
            Command::LightOn(kitchen_room_light_on),
            Command::StereoOnWithCd(stereo_on_with_cd),
        ],
    };
    let party_off_command = MacroCommand {
        commands: vec![
            Command::LightOff(living_room_light_off),
            Command::LightOff(kitchen_room_light_off),
            Command::StereoOff(stereo_off),
        ],
    };

    let mut remote_control = RemoteControl::new();
    remote_control.set_command(
        0,
        Command::Macro(party_on_command),
        Command::Macro(party_off_command),
    );

    println!("{}", remote_control.to_string());
    println!("--- Pushing Macro On ---");
    let said = remote_control.on_button_was_pushed(0);
    println!("{}", said);
    assert_eq!(
        said,
        "Living Room Light is on\n\
         Kitchen Room Light is on\n\
         Living Room Stereo is on\n\
         Living Room Stereo is set for Cd input\n\
         Living Room Stereo volume set to 11\n"
    );
    println!("--- Pushing Macro Off ---");
    let said = remote_control.off_button_was_pushed(0);
    println!("{}", said);
    assert_eq!(
        said,
        "Living Room Light is off\nKitchen Room Light is off\nLiving Room Stereo is off\n"
    );
    assert_eq!(
        remote_control.undo_button_was_pushed(),
        "Living Room Light is on\n\
         Kitchen Room Light is on\n\
         Living Room Stereo is on\n\
         Living Room Stereo is set for Cd input\n\
         Living Room Stereo volume set to 11\n"
    );
}

#[test]
fn empty_remote_does_nothing() {
    let mut remote_control = RemoteControl::new();
    for slot in 0..7 {
        assert_eq!(remote_control.on_button_was_pushed(slot), "");
        assert_eq!(remote_control.off_button_was_pushed(slot), "");
    }
    assert_eq!(remote_control.undo_button_was_pushed(), "");
    assert_eq!(
        remote_control.to_string(),
        "\n------ Remote Control ------\n".to_string()
            + &(0..7)
                .map(|slot| format!("[slot {}] NoCommand    NoCommand\n", slot))
                .collect::<String>()
    );
}

#[test]
fn undo_takes_back_the_command_that_was_pushed() {
    let mut remote_control = RemoteControl::new();
    remote_control.set_command(
        2,
        Command::StereoOnWithCd(StereoOnWithCdCommand {
            stereo: Stereo::new("Den"),
        }),
        Command::StereoOff(StereoOffCommand {
            stereo: Stereo::new("Den"),
        }),
    );
    remote_control.on_button_was_pushed(2);
    remote_control.set_command(2, Command::No(NoCommand), Command::No(NoCommand));
    assert_eq!(remote_control.undo_button_was_pushed(), "Den Stereo is off\n");
    remote_control.off_button_was_pushed(2);
    assert_eq!(remote_control.undo_button_was_pushed(), "");
}

#[test]
fn devices_speak_for_themselves() {
    let light = Light::new("Hall");
    assert_eq!(light.on(), "Hall Light is on\n");
    assert_eq!(light.off(), "Hall Light is off\n");
    let mut stereo = Stereo::new("Hall");
    assert_eq!(stereo.on(), "Hall Stereo is on\n");
    assert_eq!(stereo.off(), "Hall Stereo is off\n");
    assert_eq!(stereo.set_cd(Cd), "Hall Stereo is set for Cd input\n");
    assert_eq!(stereo.set_volumn(120), "Hall Stereo volume set to 120\n");
}

#[test]
fn commands_by_themselves() {
    let mut on = Command::LightOn(LightOnCommand {
        light: Light::new("Attic"),
    });
    assert_eq!(on.name(), "LightOnCommand");
    assert_eq!(on.execute(), "Attic Light is on\n");
    assert_eq!(on.undo(), "Attic Light is off\n");
    let mut off = Command::StereoOff(StereoOffCommand {
        stereo: Stereo::new("Attic"),
    });
    assert_eq!(off.name(), "StereoOffCommand");
    assert_eq!(off.execute(), "Attic Stereo is off\n");
    assert_eq!(
        off.undo(),
        "Attic Stereo is on\nAttic Stereo is set for Cd input\nAttic Stereo volume set to 11\n"
    );
    let mut nested = Command::Macro(MacroCommand {
        commands: vec![
            on.clone(),
            Command::Macro(MacroCommand {
                commands: vec![off.clone(), Command::No(NoCommand)],
            }),
        ],
    });
    assert_eq!(nested.name(), "MacroCommand");
    assert_eq!(nested.execute(), "Attic Light is on\nAttic Stereo is off\n");
    assert_eq!(
        nested.clone().undo(),
        "Attic Light is off\n\
         Attic Stereo is on\nAttic Stereo is set for Cd input\nAttic Stereo volume set to 11\n"
    );
    assert_eq!(Command::No(NoCommand).name(), "NoCommand");
}
