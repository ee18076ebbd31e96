use mpris::find::{all_player_bus_names, find_by_name, same_name};
use mpris::player::{bus_name_trimmed, running_after_ping, PingFailure, SERVICE_UNKNOWN};
use mpris::PlaybackStatus::{Paused, Playing, Stopped};
use mpris::{
    ActivePick, FindingError, MprisDuration, MprisError, PlaybackStatus, PlayerFinder,
    MPRIS2_PREFIX,
};

fn strings(texts: &[&str]) -> Vec<String> {
    texts.iter().map(|text| text.to_string()).collect()
}

#[test]
fn only_players_in_lowercase_order() {
    assert_eq!(MPRIS2_PREFIX, "org.mpris.MediaPlayer2.");
    let names = strings(&[
        "org.freedesktop.DBus",
        "org.mpris.MediaPlayer2.vlc",
        ":1.42",
        "org.mpris.MediaPlayer2.Spotify",
        "org.mpris.MediaPlayer2",
        "org.mpris.MediaPlayer2.mpv",
        "com.example.org.mpris.MediaPlayer2.fake",
        "org.mpris.MediaPlayer2.",
        "org.mpris.MediaPlayer2.Amarok",
        "org.mpris.mediaplayer2.lowercase",
    ]);
    assert_eq!(
        all_player_bus_names(&names),
        strings(&[
            "org.mpris.MediaPlayer2.",
            "org.mpris.MediaPlayer2.Amarok",
            "org.mpris.MediaPlayer2.mpv",
            "org.mpris.MediaPlayer2.Spotify",
            "org.mpris.MediaPlayer2.vlc",
        ])
    );
    assert_eq!(all_player_bus_names(&vec![]), Vec::<String>::new());
    assert_eq!(
        all_player_bus_names(&strings(&["org.freedesktop.DBus"])),
        Vec::<String>::new()
    );
}

#[test]
fn equal_names_stay_and_order_is_by_code_points() {
    let names = strings(&[
        "org.mpris.MediaPlayer2.b",
        "org.mpris.MediaPlayer2.a",
        "org.mpris.MediaPlayer2.b",
        "org.mpris.MediaPlayer2.\u{e4}",
        "org.mpris.MediaPlayer2.Z",
        "org.mpris.MediaPlayer2.\u{c4}",
        "org.mpris.MediaPlayer2.ab",
        "org.mpris.MediaPlayer2._",
    ]);
    let sorted = all_player_bus_names(&names);
    let mut expected = names.clone();
    expected.sort_by_key(|name| name.to_lowercase());
    assert_eq!(sorted, expected);
    assert_eq!(sorted.len(), 8);
    assert_eq!(sorted[0], "org.mpris.MediaPlayer2._");
    assert_eq!(sorted[1], "org.mpris.MediaPlayer2.a");
    assert_eq!(sorted[5], "org.mpris.MediaPlayer2.Z");
}

#[test]
fn finder_takes_the_first_player() {
    let finder = PlayerFinder::for_names(&strings(&[
        "org.mpris.MediaPlayer2.vlc",
        "org.freedesktop.DBus",
        "org.mpris.MediaPlayer2.Amarok",
    ]));
    assert_eq!(
        finder.all_player_buses(),
        &strings(&["org.mpris.MediaPlayer2.Amarok", "org.mpris.MediaPlayer2.vlc"])
    );
    assert_eq!(
        finder.active_player_bus(),
        Some("org.mpris.MediaPlayer2.Amarok".to_string())
    );
    let nobody = PlayerFinder::for_names(&strings(&["org.freedesktop.DBus"]));
    assert_eq!(nobody.active_player_bus(), None);
    assert_eq!(nobody.all_player_buses().len(), 0);
}

#[test]
fn names_are_found_whatever_their_case() {
    let identities = strings(&["Amarok", "VLC media player", "vlc MEDIA player", "mpv"]);
    assert_eq!(find_by_name(&identities, "vlc media player"), Some(1));
    assert_eq!(find_by_name(&identities, "VLC MEDIA PLAYER"), Some(1));
    assert_eq!(find_by_name(&identities, "MPV"), Some(3));
    assert_eq!(find_by_name(&identities, "amarok"), Some(0));
    assert_eq!(find_by_name(&identities, "vlc"), None);
    assert_eq!(find_by_name(&identities, ""), None);
    assert_eq!(find_by_name(&vec![], "mpv"), None);
    assert!(same_name("\u{c4}rger", "\u{e4}RGER"));
    assert!(!same_name("a", "b"));
    assert!(same_name("", ""));

    let finder = PlayerFinder::for_names(&vec![]);
    assert_eq!(finder.find_with_name(&identities, "Mpv"), Ok(3));
    assert_eq!(
        finder.find_with_name(&identities, "nobody"),
        Err(FindingError::NoPlayerFound)
    );
    assert_eq!(
        FindingError::from(MprisError::Unsupported),
        FindingError::DBusError(MprisError::Unsupported)
    );
}

#[test]
fn trimmed_bus_names() {
    assert_eq!(bus_name_trimmed("org.mpris.MediaPlayer2.vlc"), "vlc");
    assert_eq!(bus_name_trimmed("org.mpris.MediaPlayer2.vlc.instance7"), "vlc.instance7");
    assert_eq!(
        bus_name_trimmed("org.mpris.MediaPlayer2.org.mpris.MediaPlayer2.twice"),
        "twice"
    );
    assert_eq!(bus_name_trimmed("org.mpris.MediaPlayer2."), "");
    assert_eq!(bus_name_trimmed("org.mpris.MediaPlayer2"), "org.mpris.MediaPlayer2");
    assert_eq!(bus_name_trimmed("vlc"), "vlc");
    assert_eq!(bus_name_trimmed(""), "");
}

fn pick(players: &[(PlaybackStatus, bool)]) -> Option<usize> {
    let mut pick = ActivePick::new();
    for (index, (status, has_track)) in players.iter().enumerate() {
        let has_track = pick.needs_track(*status) && *has_track;
        if let Some(playing) = pick.place(index, *status, has_track) {
            return Some(playing);
        }
    }
    pick.choice()
}

#[test]
fn the_active_player() {
    assert_eq!(pick(&[]), None);
    assert_eq!(pick(&[(Stopped, false)]), Some(0));
    assert_eq!(pick(&[(Stopped, false), (Stopped, false)]), Some(0));
    assert_eq!(pick(&[(Stopped, false), (Stopped, true)]), Some(1));
    assert_eq!(pick(&[(Stopped, true), (Stopped, true)]), Some(0));
    assert_eq!(pick(&[(Stopped, true), (Paused, false)]), Some(1));
    assert_eq!(pick(&[(Paused, false), (Paused, true)]), Some(0));
    assert_eq!(pick(&[(Stopped, true), (Paused, false), (Playing, false)]), Some(2));
    assert_eq!(pick(&[(Playing, false), (Playing, true)]), Some(0));
    assert_eq!(pick(&[(Stopped, false), (Paused, true), (Paused, true)]), Some(1));
}

#[test]
fn when_the_track_matters() {
    let mut pick: ActivePick<u8> = ActivePick::new();
    assert!(!pick.needs_track(Playing));
    assert!(!pick.needs_track(Paused));
    assert!(pick.needs_track(Stopped));
    assert_eq!(pick.place(1, Paused, false), None);
    assert!(pick.needs_track(Paused));
    assert_eq!(pick.place(2, Paused, true), None);
    assert!(!pick.needs_track(Paused));
    assert!(!pick.needs_track(Stopped));
    assert_eq!(pick.place(3, Stopped, true), None);
    assert_eq!(pick.place(4, Stopped, true), None);
    assert_eq!(pick.first_paused, Some(1));
    assert_eq!(pick.first_with_track, Some(2));
    assert_eq!(pick.first_found, Some(3));
    assert_eq!(pick.place(5, Playing, false), Some(5));
    assert_eq!(pick.choice(), Some(1));
}

#[test]
fn math_with_borrowed_numbers() {
    let two = 2_u64;
    assert_eq!(MprisDuration::new_from_u64(3) * &two, MprisDuration::new_from_u64(6));
    assert_eq!(MprisDuration::new_from_u64(7) / &two, MprisDuration::new_from_u64(3));
    assert_eq!(MprisDuration::new_from_u64(3) + &two, MprisDuration::new_from_u64(5));
    assert_eq!(MprisDuration::new_from_u64(3) - &two, MprisDuration::new_from_u64(1));
    assert_eq!(MprisDuration::new_max() * &two, MprisDuration::new_max());
    assert_eq!(MprisDuration::new_from_u64(1) - &two, MprisDuration::default());
}

#[test]
fn running_or_not() {
    assert_eq!(running_after_ping(Ok(())), Ok(true));
    assert_eq!(SERVICE_UNKNOWN, "org.freedesktop.DBus.Error.ServiceUnknown");
    let gone = PingFailure {
        error_name: Some(SERVICE_UNKNOWN.to_string()),
        description: "The name is not activatable".to_string(),
    };
    assert_eq!(running_after_ping(Err(gone)), Ok(false));
    let other = PingFailure {
        error_name: Some("org.freedesktop.DBus.Error.NoReply".to_string()),
        description: "no reply".to_string(),
    };
    assert_eq!(
        running_after_ping(Err(other)),
        Err(MprisError::DbusError("no reply".to_string()))
    );
    let nameless = PingFailure { error_name: None, description: "broken pipe".to_string() };
    assert_eq!(
        running_after_ping(Err(nameless)),
        Err(MprisError::DbusError("broken pipe".to_string()))
    );
    let lowercase = PingFailure {
        error_name: Some("org.freedesktop.dbus.error.serviceunknown".to_string()),
        description: "d".to_string(),
    };
    assert_eq!(
        running_after_ping(Err(lowercase)),
        Err(MprisError::DbusError("d".to_string()))
    );
}
