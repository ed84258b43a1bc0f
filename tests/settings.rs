use yap_supervisor::settings::{generate_python_settings_dict, BotSettings, YapBotInstallerSettings};
use yap_supervisor::update::{is_newer, is_outdated, is_outdated_ignoring_v, version_numbers_of};

fn complete() -> YapBotInstallerSettings {
    YapBotInstallerSettings {
        oauth: "oauth:abc".to_string(),
        main_channel_name: "main".to_string(),
        bot_channel_name: "bot".to_string(),
        denied_users: "Nightbot".to_string(),
        cooldown: "20".to_string(),
        generate_command: "!g".to_string(),
        step4_db_prompt_answered_yes: None,
        twitch_token_client_id: None,
    }
}

#[test]
fn installer_settings_completeness() {
    assert!(complete().is_complete());
    let mut s = complete();
    s.cooldown.clear();
    assert!(!s.is_complete());
    assert!(!YapBotInstallerSettings::default().is_complete());
}

#[test]
fn bot_settings_defaults() {
    let d = BotSettings::default();
    assert_eq!(d.channel, "#<channel>");
    assert_eq!(d.nickname, "<name>");
    assert_eq!(d.authentication, "oauth:<auth>");
    assert_eq!(d.denied_users, vec!["StreamElements", "Nightbot", "Moobot", "Marbiebot"]);
    assert!(d.allowed_users.is_empty());
    assert_eq!((d.cooldown, d.key_length, d.max_sentence_word_amount), (20, 2, 40));
    assert_eq!((d.min_sentence_word_amount, d.automatic_generation_timer), (-1, -1));
    assert_eq!(d.generate_commands, vec!["!generate", "!g"]);
    assert!(d.sound_enabled);
    assert!(!d.randomized_generation_timer_enabled);
    assert_eq!((d.randomized_generation_timer_min, d.randomized_generation_timer_max), (30, 100));
}

#[test]
fn python_settings_dict_layout() {
    let denied = vec!["Nightbot".to_string(), "Moobot".to_string()];
    let allowed: Vec<String> = Vec::new();
    let commands = vec!["!g".to_string()];
    let got = generate_python_settings_dict(
        "irc.chat.twitch.tv", 6667, "#chan", "botname", "oauth:xyz", &denied, &allowed, 20, 2, 40, -1, 18000,
        -1, false, true, ", ", false, &commands,
    );
    let expected = "        \"Host\": \"irc.chat.twitch.tv\",\n        \"Port\": 6667,\n        \"Channel\": \"#chan\",\n        \"Nickname\": \"botname\",\n        \"Authentication\": \"oauth:xyz\",\n        \"DeniedUsers\": [\n            \"Nightbot\",\n            \"Moobot\",\n        ],\n        \"AllowedUsers\": [],\n        \"Cooldown\": 20,\n        \"KeyLength\": 2,\n        \"MaxSentenceWordAmount\": 40,\n        \"MinSentenceWordAmount\": -1,\n        \"HelpMessageTimer\": 18000,\n        \"AutomaticGenerationTimer\": -1,\n        \"WhisperCooldown\": False,\n        \"EnableGenerateCommand\": True,\n        \"SentenceSeparator\": \", \",\n        \"AllowGenerateParams\": False,\n        \"GenerateCommands\": [\n            \"!g\",\n        ]\n    ";
    assert_eq!(got, expected);
}

#[test]
fn release_tags_compared_without_leading_v() {
    assert!(!is_outdated_ignoring_v("v1.2.3", "1.2.3"));
    assert!(!is_outdated_ignoring_v("1.2.3", "v1.2.3"));
    assert!(is_outdated_ignoring_v("v1.2.3", "v1.2.4"));
    assert!(!is_outdated_ignoring_v("vv1.0", "v1.0"));
    assert!(is_outdated_ignoring_v("1.0", "1.0.0"));
    assert!(!is_outdated_ignoring_v("", "v"));
}

#[test]
fn release_tags_compared_as_they_are() {
    assert!(is_outdated("v1.0", "1.0"));
    assert!(!is_outdated("v1.2.3", "v1.2.3"));
    assert!(is_outdated("v1.2.3", "v1.2.4"));
    assert!(is_outdated("1.0", "1.0.0"));
    assert!(!is_outdated("", ""));
}

#[test]
fn version_numbers_follow_dotted_fields() {
    assert_eq!(version_numbers_of("1.2.3"), vec![1, 2, 3]);
    assert_eq!(version_numbers_of("2.0.0-beta.1"), vec![2, 0, 0]);
    assert_eq!(version_numbers_of("1..x"), vec![1, 0, 0]);
    assert_eq!(version_numbers_of(""), vec![0]);
    assert_eq!(version_numbers_of("4294967295.4294967296"), vec![4294967295, 0]);
    assert_eq!(version_numbers_of("v3.1"), vec![0, 1]);
}

#[test]
fn newer_version_comparison() {
    assert!(is_newer("1.0.1", "1.0"));
    assert!(!is_newer("1.0", "1.0.1"));
    assert!(!is_newer("1.2.0", "1.10.0"));
    assert!(is_newer("1.10.0", "1.2.0"));
    assert!(is_newer("2.0.0-beta", "1.9.9"));
    assert!(!is_newer("1.0.0+build", "1.0.0"));
    assert!(!is_newer("v1.2", "1.1"));
    assert!(!is_newer("1.4294967296", "1.5"));
    assert!(is_newer("1.4294967295", "1.5"));
    assert!(!is_newer("", ""));
    assert!(is_newer("1..2", "1.0.1"));
}
