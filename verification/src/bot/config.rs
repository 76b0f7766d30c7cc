//! The settings that the assistant runs with.

use vstd::prelude::*;

verus! {

/// The settings as values.
pub struct ConfigView {
    pub bot_token: Seq<char>,
    pub spreadsheet_id: Seq<char>,
    pub notify_chat_id: i64,
    pub api_service_key_json_data: Seq<char>,
    pub api_data_fetch_task_interval_min: u32,
}

/// The settings: how to reach the chat service and the spreadsheet, whom to
/// notify, and how often to refresh the dashboard.
#[derive(Debug)]
pub struct CongratulatorConfig {
    bot_token: String,
    spreadsheet_id: String,
    notify_chat_id: i64,
    api_service_key_json_data: String,
    api_data_fetch_task_interval_min: u32,
}

impl View for CongratulatorConfig {
    type V = ConfigView;

    closed spec fn view(&self) -> ConfigView {
        ConfigView {
            bot_token: self.bot_token@,
            spreadsheet_id: self.spreadsheet_id@,
            notify_chat_id: self.notify_chat_id,
            api_service_key_json_data: self.api_service_key_json_data@,
            api_data_fetch_task_interval_min: self.api_data_fetch_task_interval_min,
        }
    }
}

impl CongratulatorConfig {
    /// The settings with these values.
    pub fn new(
        bot_token: String,
        spreadsheet_id: String,
        notify_chat_id: i64,
        api_service_key_json_data: String,
        api_data_fetch_task_interval_min: u32,
    ) -> (config: CongratulatorConfig)
        ensures
            config@ == (ConfigView {
                bot_token: bot_token@,
                spreadsheet_id: spreadsheet_id@,
                notify_chat_id,
                api_service_key_json_data: api_service_key_json_data@,
                api_data_fetch_task_interval_min,
            }),
    {
        CongratulatorConfig {
            bot_token,
            spreadsheet_id,
            notify_chat_id,
            api_service_key_json_data,
            api_data_fetch_task_interval_min,
        }
    }

    /// The number of minutes between two refreshes of the dashboard.
    pub fn fetch_data_interval_min(&self) -> (minutes: u32)
        ensures
            minutes == self@.api_data_fetch_task_interval_min,
    {
        self.api_data_fetch_task_interval_min
    }

    /// The spreadsheet to read.
    pub fn spreadsheet_id(&self) -> (id: &str)
        ensures
            id@ == self@.spreadsheet_id,
    {
        self.spreadsheet_id.as_str()
    }

    /// The key of the account that reads the spreadsheet.
    pub fn api_service_key(&self) -> (key: &str)
        ensures
            key@ == self@.api_service_key_json_data,
    {
        self.api_service_key_json_data.as_str()
    }

    /// The token of the chat account.
    pub fn bot_token_str(&self) -> (token: &str)
        ensures
            token@ == self@.bot_token,
    {
        self.bot_token.as_str()
    }

    /// The chat that notifications go to.
    pub fn notify_chat_id(&self) -> (chat_id: i64)
        ensures
            chat_id == self@.notify_chat_id,
    {
        self.notify_chat_id
    }
}

} // verus!
