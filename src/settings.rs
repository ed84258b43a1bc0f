//! The bot's settings as the installer and the settings dialog keep them,
//! and the Python `DEFAULTS` block written into the bot's settings module.
use vstd::prelude::*;
use crate::ring::texts;
use crate::text::{i64_to_decimal, signed_decimal};

verus! {

/// Settings the installer collects before it can finish.
#[derive(Clone, Debug, Default)]
pub struct YapBotInstallerSettings {
    pub oauth: String,
    pub main_channel_name: String,
    pub bot_channel_name: String,
    pub denied_users: String,
    pub cooldown: String,
    pub generate_command: String,
    /// `None` until the user answered; then whether the answer was yes.
    pub step4_db_prompt_answered_yes: Option<bool>,
    pub twitch_token_client_id: Option<String>,
}

impl YapBotInstallerSettings {
    /// All required text fields are filled in.
    pub fn is_complete(&self) -> (r: bool)
        ensures
            r == (self.oauth@.len() > 0 && self.main_channel_name@.len() > 0
                && self.bot_channel_name@.len() > 0 && self.denied_users@.len() > 0
                && self.cooldown@.len() > 0 && self.generate_command@.len() > 0),
    {
        !self.oauth.as_str().is_empty() && !self.main_channel_name.as_str().is_empty()
            && !self.bot_channel_name.as_str().is_empty() && !self.denied_users.as_str().is_empty()
            && !self.cooldown.as_str().is_empty() && !self.generate_command.as_str().is_empty()
    }
}

/// The bot's own settings, as the settings dialog edits them.
#[derive(Clone, Debug)]
pub struct BotSettings {
    pub channel: String,
    pub nickname: String,
    pub authentication: String,
    pub denied_users: Vec<String>,
    pub allowed_users: Vec<String>,
    pub cooldown: i32,
    pub key_length: i32,
    pub max_sentence_word_amount: i32,
    pub min_sentence_word_amount: i32,
    pub automatic_generation_timer: i32,
    pub generate_commands: Vec<String>,
    pub sound_enabled: bool,
    pub randomized_generation_timer_enabled: bool,
    pub randomized_generation_timer_min: i32,
    pub randomized_generation_timer_max: i32,
}

impl Default for BotSettings {
    fn default() -> (r: Self)
        ensures
            r.channel@ == "#<channel>"@,
            r.nickname@ == "<name>"@,
            r.authentication@ == "oauth:<auth>"@,
            texts(r.denied_users@) == seq!["StreamElements"@, "Nightbot"@, "Moobot"@, "Marbiebot"@],
            r.allowed_users@.len() == 0,
            r.cooldown == 20,
            r.key_length == 2,
            r.max_sentence_word_amount == 40,
            r.min_sentence_word_amount == -1,
            r.automatic_generation_timer == -1,
            texts(r.generate_commands@) == seq!["!generate"@, "!g"@],
            r.sound_enabled,
            !r.randomized_generation_timer_enabled,
            r.randomized_generation_timer_min == 30,
            r.randomized_generation_timer_max == 100,
    {
        let denied_users = vec![
            String::from_str("StreamElements"),
            String::from_str("Nightbot"),
            String::from_str("Moobot"),
            String::from_str("Marbiebot"),
        ];
        let generate_commands = vec![String::from_str("!generate"), String::from_str("!g")];
        assert(texts(denied_users@) =~= seq!["StreamElements"@, "Nightbot"@, "Moobot"@, "Marbiebot"@]);
        assert(texts(generate_commands@) =~= seq!["!generate"@, "!g"@]);
        BotSettings {
            channel: String::from_str("#<channel>"),
            nickname: String::from_str("<name>"),
            authentication: String::from_str("oauth:<auth>"),
            denied_users,
            allowed_users: Vec::new(),
            cooldown: 20,
            key_length: 2,
            max_sentence_word_amount: 40,
            min_sentence_word_amount: -1,
            automatic_generation_timer: -1,
            generate_commands,
            sound_enabled: true,
            randomized_generation_timer_enabled: false,
            randomized_generation_timer_min: 30,
            randomized_generation_timer_max: 100,
        }
    }
}

/// The items of a Python list literal, one per line.
pub open spec fn py_items(xs: Seq<Seq<char>>) -> Seq<char>
    decreases xs.len(),
{
    if xs.len() == 0 {
        Seq::empty()
    } else {
        py_items(xs.drop_last()) + "            \""@ + xs.last() + "\",\n"@
    }
}

/// A Python list literal of the strings `xs`: `[]` when empty, else one
/// quoted item per line.
pub open spec fn py_list(xs: Seq<Seq<char>>) -> Seq<char> {
    if xs.len() == 0 {
        "[]"@
    } else {
        "[\n"@ + py_items(xs) + "        ]"@
    }
}

/// A Python boolean literal.
pub open spec fn py_bool(b: bool) -> Seq<char> {
    if b {
        "True"@
    } else {
        "False"@
    }
}

fn py_list_exec(strings: &[String]) -> (r: String)
    ensures
        r@ == py_list(texts(strings@)),
{
    if strings.len() == 0 {
        return String::from_str("[]");
    }
    let mut items = String::from_str("");
    proof {
        reveal_strlit("");
    }
    let n = strings.len();
    let mut i: usize = 0;
    while i < n
        invariant
            n == strings@.len(),
            i <= n,
            items@ == py_items(texts(strings@).subrange(0, i as int)),
        decreases n - i,
    {
        proof {
            let xs = texts(strings@).subrange(0, i + 1);
            assert(xs.drop_last() =~= texts(strings@).subrange(0, i as int));
            assert(xs.last() == strings@[i as int]@);
        }
        items.append("            \"");
        items.append(strings[i].as_str());
        items.append("\",\n");
        i = i + 1;
    }
    assert(texts(strings@).subrange(0, n as int) =~= texts(strings@));
    String::from_str("[\n").concat(items.as_str()).concat("        ]")
}

fn py_bool_exec(b: bool) -> (r: &'static str)
    ensures
        r@ == py_bool(b),
{
    if b {
        "True"
    } else {
        "False"
    }
}

/// The body of the `DEFAULTS` dictionary of the bot's Python settings.
pub open spec fn python_settings_dict(
    host: Seq<char>,
    port: int,
    channel: Seq<char>,
    nickname: Seq<char>,
    authentication: Seq<char>,
    denied_users: Seq<Seq<char>>,
    allowed_users: Seq<Seq<char>>,
    cooldown: int,
    key_length: int,
    max_sentence_word_amount: int,
    min_sentence_word_amount: int,
    help_message_timer: int,
    automatic_generation_timer: int,
    whisper_cooldown: bool,
    enable_generate_command: bool,
    sentence_separator: Seq<char>,
    allow_generate_params: bool,
    generate_commands: Seq<Seq<char>>,
) -> Seq<char> {
    "        \"Host\": \""@ + host
        + "\",\n        \"Port\": "@ + signed_decimal(port)
        + ",\n        \"Channel\": \""@ + channel
        + "\",\n        \"Nickname\": \""@ + nickname
        + "\",\n        \"Authentication\": \""@ + authentication
        + "\",\n        \"DeniedUsers\": "@ + py_list(denied_users)
        + ",\n        \"AllowedUsers\": "@ + py_list(allowed_users)
        + ",\n        \"Cooldown\": "@ + signed_decimal(cooldown)
        + ",\n        \"KeyLength\": "@ + signed_decimal(key_length)
        + ",\n        \"MaxSentenceWordAmount\": "@ + signed_decimal(max_sentence_word_amount)
        + ",\n        \"MinSentenceWordAmount\": "@ + signed_decimal(min_sentence_word_amount)
        + ",\n        \"HelpMessageTimer\": "@ + signed_decimal(help_message_timer)
        + ",\n        \"AutomaticGenerationTimer\": "@ + signed_decimal(automatic_generation_timer)
        + ",\n        \"WhisperCooldown\": "@ + py_bool(whisper_cooldown)
        + ",\n        \"EnableGenerateCommand\": "@ + py_bool(enable_generate_command)
        + ",\n        \"SentenceSeparator\": \""@ + sentence_separator
        + "\",\n        \"AllowGenerateParams\": "@ + py_bool(allow_generate_params)
        + ",\n        \"GenerateCommands\": "@ + py_list(generate_commands)
        + "\n    "@
}

/// Generates the Python dict body for the `DEFAULTS` block of the bot's
/// settings module.
pub fn generate_python_settings_dict(
    host: &str,
    port: i32,
    channel: &str,
    nickname: &str,
    authentication: &str,
    denied_users: &[String],
    allowed_users: &[String],
    cooldown: i32,
    key_length: i32,
    max_sentence_word_amount: i32,
    min_sentence_word_amount: i32,
    help_message_timer: i32,
    automatic_generation_timer: i32,
    whisper_cooldown: bool,
    enable_generate_command: bool,
    sentence_separator: &str,
    allow_generate_params: bool,
    generate_commands: &[String],
) -> (r: String)
    ensures
        r@ == python_settings_dict(
            host@,
            port as int,
            channel@,
            nickname@,
            authentication@,
            texts(denied_users@),
            texts(allowed_users@),
            cooldown as int,
            key_length as int,
            max_sentence_word_amount as int,
            min_sentence_word_amount as int,
            help_message_timer as int,
            automatic_generation_timer as int,
            whisper_cooldown,
            enable_generate_command,
            sentence_separator@,
            allow_generate_params,
            texts(generate_commands@),
        ),
{
    let mut out = String::from_str("        \"Host\": \"");
    out.append(host);
    out.append("\",\n        \"Port\": ");
    out.append(i64_to_decimal(port as i64).as_str());
    out.append(",\n        \"Channel\": \"");
    out.append(channel);
    out.append("\",\n        \"Nickname\": \"");
    out.append(nickname);
    out.append("\",\n        \"Authentication\": \"");
    out.append(authentication);
    out.append("\",\n        \"DeniedUsers\": ");
    out.append(py_list_exec(denied_users).as_str());
    out.append(",\n        \"AllowedUsers\": ");
    out.append(py_list_exec(allowed_users).as_str());
    out.append(",\n        \"Cooldown\": ");
    out.append(i64_to_decimal(cooldown as i64).as_str());
    out.append(",\n        \"KeyLength\": ");
    out.append(i64_to_decimal(key_length as i64).as_str());
    out.append(",\n        \"MaxSentenceWordAmount\": ");
    out.append(i64_to_decimal(max_sentence_word_amount as i64).as_str());
    out.append(",\n        \"MinSentenceWordAmount\": ");
    out.append(i64_to_decimal(min_sentence_word_amount as i64).as_str());
    out.append(",\n        \"HelpMessageTimer\": ");
    out.append(i64_to_decimal(help_message_timer as i64).as_str());
    out.append(",\n        \"AutomaticGenerationTimer\": ");
    out.append(i64_to_decimal(automatic_generation_timer as i64).as_str());
    out.append(",\n        \"WhisperCooldown\": ");
    out.append(py_bool_exec(whisper_cooldown));
    out.append(",\n        \"EnableGenerateCommand\": ");
    out.append(py_bool_exec(enable_generate_command));
    out.append(",\n        \"SentenceSeparator\": \"");
    out.append(sentence_separator);
    out.append("\",\n        \"AllowGenerateParams\": ");
    out.append(py_bool_exec(allow_generate_params));
    out.append(",\n        \"GenerateCommands\": ");
    out.append(py_list_exec(generate_commands).as_str());
    out.append("\n    ");
    out
}

} // verus!
