//! The per-method convenience surface: one operation per remote method
//! name, each forwarding to the generic call with its own name baked in.
//!
//! Every operation takes the same untyped list of string pairs that the
//! generic call takes, and its contract states that the request it builds is
//! exactly the one the generic call builds for that name: no new behavior,
//! no per-method validation. Further method names follow the same one-line
//! template.

use vstd::prelude::*;

use crate::api::{form_view, params_view, spec_form, spec_url, PreparedRequest, TeleApi};

verus! {

impl TeleApi {
    /// Builds exactly the request of the generic call for `"sendMessage"`.
    #[allow(non_snake_case)]
    pub fn sendMessage(&self, params: &[(&str, &str)]) -> (r: PreparedRequest)
        ensures
            r.url@ == spec_url(self.spec_token(), "sendMessage"@),
            form_view(r.form@) == spec_form(params_view(params@), "sendMessage"@),
    {
        self.prepare("sendMessage", params)
    }

    /// Builds exactly the request of the generic call for `"sendPhoto"`.
    #[allow(non_snake_case)]
    pub fn sendPhoto(&self, params: &[(&str, &str)]) -> (r: PreparedRequest)
        ensures
            r.url@ == spec_url(self.spec_token(), "sendPhoto"@),
            form_view(r.form@) == spec_form(params_view(params@), "sendPhoto"@),
    {
        self.prepare("sendPhoto", params)
    }

    /// Builds exactly the request of the generic call for `"sendAudio"`.
    #[allow(non_snake_case)]
    pub fn sendAudio(&self, params: &[(&str, &str)]) -> (r: PreparedRequest)
        ensures
            r.url@ == spec_url(self.spec_token(), "sendAudio"@),
            form_view(r.form@) == spec_form(params_view(params@), "sendAudio"@),
    {
        self.prepare("sendAudio", params)
    }

    /// Builds exactly the request of the generic call for `"sendVideo"`.
    #[allow(non_snake_case)]
    pub fn sendVideo(&self, params: &[(&str, &str)]) -> (r: PreparedRequest)
        ensures
            r.url@ == spec_url(self.spec_token(), "sendVideo"@),
            form_view(r.form@) == spec_form(params_view(params@), "sendVideo"@),
    {
        self.prepare("sendVideo", params)
    }

    /// Builds exactly the request of the generic call for `"sendDice"`.
    #[allow(non_snake_case)]
    pub fn sendDice(&self, params: &[(&str, &str)]) -> (r: PreparedRequest)
        ensures
            r.url@ == spec_url(self.spec_token(), "sendDice"@),
            form_view(r.form@) == spec_form(params_view(params@), "sendDice"@),
    {
        self.prepare("sendDice", params)
    }

    /// Builds exactly the request of the generic call for `"sendLocation"`.
    #[allow(non_snake_case)]
    pub fn sendLocation(&self, params: &[(&str, &str)]) -> (r: PreparedRequest)
        ensures
            r.url@ == spec_url(self.spec_token(), "sendLocation"@),
            form_view(r.form@) == spec_form(params_view(params@), "sendLocation"@),
    {
        self.prepare("sendLocation", params)
    }

    /// Builds exactly the request of the generic call for `"sendDocument"`.
    #[allow(non_snake_case)]
    pub fn sendDocument(&self, params: &[(&str, &str)]) -> (r: PreparedRequest)
        ensures
            r.url@ == spec_url(self.spec_token(), "sendDocument"@),
            form_view(r.form@) == spec_form(params_view(params@), "sendDocument"@),
    {
        self.prepare("sendDocument", params)
    }

    /// Builds exactly the request of the generic call for `"sendContact"`.
    #[allow(non_snake_case)]
    pub fn sendContact(&self, params: &[(&str, &str)]) -> (r: PreparedRequest)
        ensures
            r.url@ == spec_url(self.spec_token(), "sendContact"@),
            form_view(r.form@) == spec_form(params_view(params@), "sendContact"@),
    {
        self.prepare("sendContact", params)
    }

    /// Builds exactly the request of the generic call for `"deleteWebhook"`.
    #[allow(non_snake_case)]
    pub fn deleteWebhook(&self, params: &[(&str, &str)]) -> (r: PreparedRequest)
        ensures
            r.url@ == spec_url(self.spec_token(), "deleteWebhook"@),
            form_view(r.form@) == spec_form(params_view(params@), "deleteWebhook"@),
    {
        self.prepare("deleteWebhook", params)
    }

    /// Builds exactly the request of the generic call for `"getWebhookInfo"`.
    #[allow(non_snake_case)]
    pub fn getWebhookInfo(&self, params: &[(&str, &str)]) -> (r: PreparedRequest)
        ensures
            r.url@ == spec_url(self.spec_token(), "getWebhookInfo"@),
            form_view(r.form@) == spec_form(params_view(params@), "getWebhookInfo"@),
    {
        self.prepare("getWebhookInfo", params)
    }

    /// Builds exactly the request of the generic call for `"forwardMessage"`.
    #[allow(non_snake_case)]
    pub fn forwardMessage(&self, params: &[(&str, &str)]) -> (r: PreparedRequest)
        ensures
            r.url@ == spec_url(self.spec_token(), "forwardMessage"@),
            form_view(r.form@) == spec_form(params_view(params@), "forwardMessage"@),
    {
        self.prepare("forwardMessage", params)
    }

    /// Builds exactly the request of the generic call for `"copyMessage"`.
    #[allow(non_snake_case)]
    pub fn copyMessage(&self, params: &[(&str, &str)]) -> (r: PreparedRequest)
        ensures
            r.url@ == spec_url(self.spec_token(), "copyMessage"@),
            form_view(r.form@) == spec_form(params_view(params@), "copyMessage"@),
    {
        self.prepare("copyMessage", params)
    }

    /// Builds exactly the request of the generic call for `"deleteMessage"`.
    #[allow(non_snake_case)]
    pub fn deleteMessage(&self, params: &[(&str, &str)]) -> (r: PreparedRequest)
        ensures
            r.url@ == spec_url(self.spec_token(), "deleteMessage"@),
            form_view(r.form@) == spec_form(params_view(params@), "deleteMessage"@),
    {
        self.prepare("deleteMessage", params)
    }

    /// Builds exactly the request of the generic call for `"sendPoll"`.
    #[allow(non_snake_case)]
    pub fn sendPoll(&self, params: &[(&str, &str)]) -> (r: PreparedRequest)
        ensures
            r.url@ == spec_url(self.spec_token(), "sendPoll"@),
            form_view(r.form@) == spec_form(params_view(params@), "sendPoll"@),
    {
        self.prepare("sendPoll", params)
    }

    /// Builds exactly the request of the generic call for `"sendChatAction"`.
    #[allow(non_snake_case)]
    pub fn sendChatAction(&self, params: &[(&str, &str)]) -> (r: PreparedRequest)
        ensures
            r.url@ == spec_url(self.spec_token(), "sendChatAction"@),
            form_view(r.form@) == spec_form(params_view(params@), "sendChatAction"@),
    {
        self.prepare("sendChatAction", params)
    }

    /// Builds exactly the request of the generic call for `"getChat"`.
    #[allow(non_snake_case)]
    pub fn getChat(&self, params: &[(&str, &str)]) -> (r: PreparedRequest)
        ensures
            r.url@ == spec_url(self.spec_token(), "getChat"@),
            form_view(r.form@) == spec_form(params_view(params@), "getChat"@),
    {
        self.prepare("getChat", params)
    }

    /// Builds exactly the request of the generic call for `"leaveChat"`.
    #[allow(non_snake_case)]
    pub fn leaveChat(&self, params: &[(&str, &str)]) -> (r: PreparedRequest)
        ensures
            r.url@ == spec_url(self.spec_token(), "leaveChat"@),
            form_view(r.form@) == spec_form(params_view(params@), "leaveChat"@),
    {
        self.prepare("leaveChat", params)
    }

    /// Builds exactly the request of the generic call for `"pinChatMessage"`.
    #[allow(non_snake_case)]
    pub fn pinChatMessage(&self, params: &[(&str, &str)]) -> (r: PreparedRequest)
        ensures
            r.url@ == spec_url(self.spec_token(), "pinChatMessage"@),
            form_view(r.form@) == spec_form(params_view(params@), "pinChatMessage"@),
    {
        self.prepare("pinChatMessage", params)
    }

    /// Builds exactly the request of the generic call for `"answerCallbackQuery"`.
    #[allow(non_snake_case)]
    pub fn answerCallbackQuery(&self, params: &[(&str, &str)]) -> (r: PreparedRequest)
        ensures
            r.url@ == spec_url(self.spec_token(), "answerCallbackQuery"@),
            form_view(r.form@) == spec_form(params_view(params@), "answerCallbackQuery"@),
    {
        self.prepare("answerCallbackQuery", params)
    }

    /// Builds exactly the request of the generic call for `"getMyCommands"`.
    #[allow(non_snake_case)]
    pub fn getMyCommands(&self, params: &[(&str, &str)]) -> (r: PreparedRequest)
        ensures
            r.url@ == spec_url(self.spec_token(), "getMyCommands"@),
            form_view(r.form@) == spec_form(params_view(params@), "getMyCommands"@),
    {
        self.prepare("getMyCommands", params)
    }

}

} // verus!
