use vstd::prelude::*;

verus! {

/// A fire-and-forget desktop-notification request, as the engine emits it
/// on lap completion.  Delivering it — and silently swallowing a delivery
/// failure — is the caller's business.
pub struct NotificationRequest {
    /// Headline of the notification.
    pub title: String,
    /// Message shown under the headline.
    pub body: String,
    /// The notification should stay on screen until dismissed.
    pub persistent: bool,
}

/// The request the engine emits when a work interval completes.
pub fn lap_complete_request() -> (r: NotificationRequest)
    ensures
        r.title@ == "Pomodoro"@,
        r.body@ == "Time out! Please check your tomato!"@,
        r.persistent,
{
    NotificationRequest {
        title: String::from_str("Pomodoro"),
        body: String::from_str("Time out! Please check your tomato!"),
        persistent: true,
    }
}

} // verus!
