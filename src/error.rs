//! Why a translation request failed.

use vstd::prelude::*;
use vstd::string::*;

verus! {

/// The failure of a request to one of the translation services.
#[derive(Debug, Clone, PartialEq, Eq)]
pub enum TranslateError {
    /// The request was not answered within its time limit.
    Timeout,
    /// The service's host could not be reached.
    Unreachable,
    /// Another transport failure, with the client's description.
    Request(String),
    /// The service answered with a status other than success, and this body.
    StatusBody(u16, String),
    /// The body of the reply could not be read.
    Body(String),
    /// The reply was no valid JSON; the parser's description.
    Parse(String),
    /// The reply held no translation.
    NotFound,
    /// The reply held no detected language.
    NotDetected,
    /// No model of the catalog is a Gemini flash model.
    NoFlashModel,
}

/// HTTP statuses 200 to 299.
pub open spec fn is_success(status: u16) -> bool {
    200 <= status < 300
}

/// Whether `status` means success.
pub fn success(status: u16) -> (r: bool)
    ensures
        r == is_success(status),
{
    200 <= status && status < 300
}

/// The service a failed request went to, which words its messages.
#[derive(Debug, Clone, Copy, PartialEq, Eq, Structural)]
pub enum Service {
    /// Translation through the web endpoint.
    Web,
    /// Translation through the generative-language service.
    Gemini,
    /// Language detection through the web endpoint.
    Detect,
}

/// The user-facing message for `e` from `service`; `status_text` is how the
/// reply's status reads (code and reason).
pub open spec fn message_of(service: Service, e: TranslateError, status_text: Seq<char>) -> Seq<char> {
    match e {
        TranslateError::Timeout => match service {
            Service::Web => "翻訳リクエストがタイムアウトしました。インターネット接続を確認してください。"@,
            Service::Gemini => "Gemini APIリクエストがタイムアウトしました。"@,
            Service::Detect => "言語検出がタイムアウトしました。"@,
        },
        TranslateError::Unreachable => match service {
            Service::Web => "Google翻訳に接続できませんでした。オフラインの可能性があります。"@,
            Service::Gemini => "Gemini APIに接続できませんでした。オフラインの可能性があります。"@,
            Service::Detect => "言語検出に失敗しました。オフラインの可能性があります。"@,
        },
        TranslateError::Request(m) => match service {
            Service::Web => "リクエストに失敗しました: "@ + m@,
            Service::Gemini => "Geminiリクエストに失敗しました: "@ + m@,
            Service::Detect => "言語検出リクエストに失敗しました: "@ + m@,
        },
        TranslateError::StatusBody(_, body) => match service {
            Service::Web => "API request failed with status "@ + status_text + ": "@ + body@,
            Service::Gemini => "Gemini API request failed with status "@ + status_text + ": "@ + body@,
            Service::Detect => "Detection request failed with status "@ + status_text + ": "@ + body@,
        },
        TranslateError::Body(m) => match service {
            Service::Detect => "Failed to read response: "@ + m@,
            _ => "Failed to read response body: "@ + m@,
        },
        TranslateError::Parse(m) => match service {
            Service::Gemini => "Failed to parse Gemini response: "@ + m@,
            _ => "Failed to parse response: "@ + m@,
        },
        TranslateError::NotFound => match service {
            Service::Gemini => "Translation not found in Gemini response"@,
            _ => "Translation not found in response"@,
        },
        TranslateError::NotDetected => "Failed to detect language from response"@,
        TranslateError::NoFlashModel => "No flash models found"@,
    }
}

fn joined(head: &str, tail: &str) -> (r: String)
    ensures
        r@ == head@ + tail@,
{
    let mut r = String::from_str(head);
    r.append(tail);
    r
}

/// The user-facing message for `e` from `service`.
pub fn error_message(service: Service, e: &TranslateError, status_text: &str) -> (r: String)
    ensures
        r@ == message_of(service, *e, status_text@),
{
    match e {
        TranslateError::Timeout => match service {
            Service::Web => String::from_str("翻訳リクエストがタイムアウトしました。インターネット接続を確認してください。"),
            Service::Gemini => String::from_str("Gemini APIリクエストがタイムアウトしました。"),
            Service::Detect => String::from_str("言語検出がタイムアウトしました。"),
        },
        TranslateError::Unreachable => match service {
            Service::Web => String::from_str("Google翻訳に接続できませんでした。オフラインの可能性があります。"),
            Service::Gemini => String::from_str("Gemini APIに接続できませんでした。オフラインの可能性があります。"),
            Service::Detect => String::from_str("言語検出に失敗しました。オフラインの可能性があります。"),
        },
        TranslateError::Request(m) => match service {
            Service::Web => joined("リクエストに失敗しました: ", m.as_str()),
            Service::Gemini => joined("Geminiリクエストに失敗しました: ", m.as_str()),
            Service::Detect => joined("言語検出リクエストに失敗しました: ", m.as_str()),
        },
        TranslateError::StatusBody(_, body) => {
            let mut r = match service {
                Service::Web => joined("API request failed with status ", status_text),
                Service::Gemini => joined("Gemini API request failed with status ", status_text),
                Service::Detect => joined("Detection request failed with status ", status_text),
            };
            r.append(": ");
            r.append(body.as_str());
            r
        },
        TranslateError::Body(m) => match service {
            Service::Detect => joined("Failed to read response: ", m.as_str()),
            _ => joined("Failed to read response body: ", m.as_str()),
        },
        TranslateError::Parse(m) => match service {
            Service::Gemini => joined("Failed to parse Gemini response: ", m.as_str()),
            _ => joined("Failed to parse response: ", m.as_str()),
        },
        TranslateError::NotFound => match service {
            Service::Gemini => String::from_str("Translation not found in Gemini response"),
            _ => String::from_str("Translation not found in response"),
        },
        TranslateError::NotDetected => String::from_str("Failed to detect language from response"),
        TranslateError::NoFlashModel => String::from_str("No flash models found"),
    }
}

} // verus!
