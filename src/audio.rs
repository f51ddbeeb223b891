use vstd::prelude::*;

verus! {

/// A sound clip that the widget asks to have played.
#[derive(Clone, Copy, Debug, PartialEq, Eq, Structural)]
pub enum Sound {
    /// The bell played at the end of a work or rest period.
    Notification,
    /// The alarm clip played when the daily alarm goes off.
    Alarm,
}

/// Requests the notification bell: it is added to the queue of sounds
/// that the host plays, best effort and without waiting.
pub fn play_notification(queue: &mut Vec<Sound>)
    ensures
        final(queue)@ == old(queue)@.push(Sound::Notification),
{
    queue.push(Sound::Notification);
}

/// Requests the alarm clip: it is added to the queue of sounds that the
/// host plays, best effort and without waiting.
pub fn play_alarm(queue: &mut Vec<Sound>)
    ensures
        final(queue)@ == old(queue)@.push(Sound::Alarm),
{
    queue.push(Sound::Alarm);
}

} // verus!
