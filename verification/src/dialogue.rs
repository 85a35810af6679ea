use vstd::prelude::*;

use crate::text::same_text;

verus! {

/// The groups of moods that share a set of lines.
#[derive(Clone, Copy, Debug, PartialEq, Eq, Structural)]
pub enum Topic {
    Hover,
    Greeting,
    Charging,
    LowPower,
    Searching,
    Reconnected,
    Memory,
    Busy,
    Music,
    Sleepy,
    Joy,
    Stretch,
    Curious,
    Company,
}

/// The topic a mood (an animation name or interaction) talks about.
pub open spec fn topic_of(mood: Seq<char>) -> Topic {
    if mood == "hover"@ {
        Topic::Hover
    } else if mood == "click"@ || mood == "wave"@ {
        Topic::Greeting
    } else if mood == "charging"@ || mood == "charging_start"@ {
        Topic::Charging
    } else if mood == "battery_low"@ || mood == "tired"@ {
        Topic::LowPower
    } else if mood == "wifi_search"@ || mood == "wifi_lost"@ {
        Topic::Searching
    } else if mood == "wifi_restored"@ {
        Topic::Reconnected
    } else if mood == "memory_high"@ || mood == "memory_critical"@ {
        Topic::Memory
    } else if mood == "cpu_high"@ || mood == "cpu_critical"@ || mood == "desk"@ {
        Topic::Busy
    } else if mood == "dance"@ || mood == "headphones_idle"@ || mood == "headphones_reaction"@ {
        Topic::Music
    } else if mood == "sleep"@ || mood == "nap"@ {
        Topic::Sleepy
    } else if mood == "celebrate"@ || mood == "play"@ {
        Topic::Joy
    } else if mood == "walk"@ {
        Topic::Stretch
    } else if mood == "curious"@ {
        Topic::Curious
    } else {
        Topic::Company
    }
}

/// The short lines for a topic, in the order they are used.
pub open spec fn lines_for(topic: Topic) -> Seq<&'static str> {
    match topic {
        Topic::Hover => seq![
            "Oh, hello you!",
            "Need a tiny cheerleader?",
            "I saved this spot for you.",
            "A visitor! My favorite.",
            "Yes? I'm all ears.",
            "Your tiny sidekick, reporting in!",
        ],
        Topic::Greeting => seq![
            "Hi! What are we making today?",
            "One tiny high five!",
            "Happy to see you again.",
            "You've got this. I've got the waving.",
            "A little hello, just for you.",
            "I'm rooting for you!",
        ],
        Topic::Charging => seq![
            "Mmm, a little power snack.",
            "Recharging my tiny ambitions.",
            "More energy, more mischief!",
            "Plugged in and feeling cozy.",
        ],
        Topic::LowPower => seq![
            "Could we grab a little charge?",
            "My tiny batteries need a snack.",
            "Taking a gentle breather.",
            "A recharge would be lovely.",
        ],
        Topic::Searching => seq![
            "Where did that signal wander off?",
            "Searching with my tiny antenna.",
            "Connection playing hide-and-seek?",
            "I'll keep an eye out for it.",
        ],
        Topic::Reconnected => seq![
            "There it is! We're back.",
            "Signal found. Tiny victory!",
            "Hello again, world!",
        ],
        Topic::Memory => seq![
            "RAM use is high. Close unused tabs?",
            "A little room for more ideas?",
            "Unused apps might free some RAM.",
        ],
        Topic::Busy => seq![
            "Big task? I'll help by cheering.",
            "Your very small coworker.",
            "One little step at a time.",
            "Typing with my tiny sleeves!",
        ],
        Topic::Music => seq![
            "Ooh, a little music!",
            "This deserves a tiny dance.",
            "Good tunes, good company.",
            "Quietly vibing beside you.",
        ],
        Topic::Sleepy => seq![
            "Just five tiny minutes...",
            "Dreaming of little adventures.",
            "A cozy nap, then more fun.",
            "Saving a little energy.",
        ],
        Topic::Joy => seq![
            "Tiny victory dance!",
            "That deserves a happy hop.",
            "A little joy, just because.",
            "Confetti for the small wins!",
        ],
        Topic::Stretch => seq![
            "Stretching my very tiny legs.",
            "A little wiggle helps.",
            "Tiny steps, big plans.",
            "Time for a sleeve stretch.",
        ],
        Topic::Curious => seq![
            "What's cooking over there?",
            "Is that our next adventure?",
            "Thinking my tiny thoughts.",
            "What should we make next?",
        ],
        Topic::Company => seq![
            "Happy to keep you company.",
            "Little steps still count.",
            "Here for the cozy work hours.",
            "We make a pretty good team.",
            "A tiny friend for your big ideas.",
            "Remember to stretch your shoulders.",
            "I'm enjoying our little corner.",
            "No rush. We can take our time.",
        ],
    }
}

/// Every line says something, and within a topic no line repeats.
pub proof fn lemma_topic_lines(t: Topic)
    ensures
        lines_for(t).len() >= 3,
        forall|i: int| 0 <= i < lines_for(t).len() ==> (#[trigger] lines_for(t)[i])@.len() > 0,
        forall|i: int, j: int|
            0 <= i < j < lines_for(t).len() ==> (#[trigger] lines_for(t)[i])@ != (
            #[trigger] lines_for(t)[j])@,
{
    match t {
        Topic::Hover => {
            reveal_strlit("Oh, hello you!");
            reveal_strlit("Need a tiny cheerleader?");
            reveal_strlit("I saved this spot for you.");
            reveal_strlit("A visitor! My favorite.");
            reveal_strlit("Yes? I'm all ears.");
            reveal_strlit("Your tiny sidekick, reporting in!");
            assert(lines_for(t)[0] == "Oh, hello you!" && "Oh, hello you!"@.len() == 14);
            assert(lines_for(t)[1] == "Need a tiny cheerleader?" && "Need a tiny cheerleader?"@.len() == 24);
            assert(lines_for(t)[2] == "I saved this spot for you." && "I saved this spot for you."@.len() == 26);
            assert(lines_for(t)[3] == "A visitor! My favorite." && "A visitor! My favorite."@.len() == 23);
            assert(lines_for(t)[4] == "Yes? I'm all ears." && "Yes? I'm all ears."@.len() == 18);
            assert(lines_for(t)[5] == "Your tiny sidekick, reporting in!" && "Your tiny sidekick, reporting in!"@.len() == 33);
            assert forall|i: int, j: int| 0 <= i < j < lines_for(t).len() implies (#[trigger] lines_for(t)[i])@ != (#[trigger] lines_for(t)[j])@ by {
                if i == 0 && j == 1 { assert(lines_for(t)[0]@ != lines_for(t)[1]@); }
                else if i == 0 && j == 2 { assert(lines_for(t)[0]@ != lines_for(t)[2]@); }
                else if i == 0 && j == 3 { assert(lines_for(t)[0]@ != lines_for(t)[3]@); }
                else if i == 0 && j == 4 { assert(lines_for(t)[0]@ != lines_for(t)[4]@); }
                else if i == 0 && j == 5 { assert(lines_for(t)[0]@ != lines_for(t)[5]@); }
                else if i == 1 && j == 2 { assert(lines_for(t)[1]@ != lines_for(t)[2]@); }
                else if i == 1 && j == 3 { assert(lines_for(t)[1]@ != lines_for(t)[3]@); }
                else if i == 1 && j == 4 { assert(lines_for(t)[1]@ != lines_for(t)[4]@); }
                else if i == 1 && j == 5 { assert(lines_for(t)[1]@ != lines_for(t)[5]@); }
                else if i == 2 && j == 3 { assert(lines_for(t)[2]@ != lines_for(t)[3]@); }
                else if i == 2 && j == 4 { assert(lines_for(t)[2]@ != lines_for(t)[4]@); }
                else if i == 2 && j == 5 { assert(lines_for(t)[2]@ != lines_for(t)[5]@); }
                else if i == 3 && j == 4 { assert(lines_for(t)[3]@ != lines_for(t)[4]@); }
                else if i == 3 && j == 5 { assert(lines_for(t)[3]@ != lines_for(t)[5]@); }
                else if i == 4 && j == 5 { assert(lines_for(t)[4]@ != lines_for(t)[5]@); }
            }
            assert forall|i: int| 0 <= i < lines_for(t).len() implies (#[trigger] lines_for(t)[i])@.len() > 0 by {
                if i == 0 {}
                else if i == 1 {}
                else if i == 2 {}
                else if i == 3 {}
                else if i == 4 {}
                else if i == 5 {}
            }
        },
        Topic::Greeting => {
            reveal_strlit("Hi! What are we making today?");
            reveal_strlit("One tiny high five!");
            reveal_strlit("Happy to see you again.");
            reveal_strlit("You've got this. I've got the waving.");
            reveal_strlit("A little hello, just for you.");
            reveal_strlit("I'm rooting for you!");
            assert(lines_for(t)[0] == "Hi! What are we making today?" && "Hi! What are we making today?"@.len() == 29);
            assert(lines_for(t)[1] == "One tiny high five!" && "One tiny high five!"@.len() == 19);
            assert(lines_for(t)[2] == "Happy to see you again." && "Happy to see you again."@.len() == 23);
            assert(lines_for(t)[3] == "You've got this. I've got the waving." && "You've got this. I've got the waving."@.len() == 37);
            assert(lines_for(t)[4] == "A little hello, just for you." && "A little hello, just for you."@.len() == 29);
            assert(lines_for(t)[5] == "I'm rooting for you!" && "I'm rooting for you!"@.len() == 20);
            assert("Hi! What are we making today?"@[0] == 'H' && "A little hello, just for you."@[0] == 'A');
            assert forall|i: int, j: int| 0 <= i < j < lines_for(t).len() implies (#[trigger] lines_for(t)[i])@ != (#[trigger] lines_for(t)[j])@ by {
                if i == 0 && j == 1 { assert(lines_for(t)[0]@ != lines_for(t)[1]@); }
                else if i == 0 && j == 2 { assert(lines_for(t)[0]@ != lines_for(t)[2]@); }
                else if i == 0 && j == 3 { assert(lines_for(t)[0]@ != lines_for(t)[3]@); }
                else if i == 0 && j == 4 { assert(lines_for(t)[0]@ != lines_for(t)[4]@); }
                else if i == 0 && j == 5 { assert(lines_for(t)[0]@ != lines_for(t)[5]@); }
                else if i == 1 && j == 2 { assert(lines_for(t)[1]@ != lines_for(t)[2]@); }
                else if i == 1 && j == 3 { assert(lines_for(t)[1]@ != lines_for(t)[3]@); }
                else if i == 1 && j == 4 { assert(lines_for(t)[1]@ != lines_for(t)[4]@); }
                else if i == 1 && j == 5 { assert(lines_for(t)[1]@ != lines_for(t)[5]@); }
                else if i == 2 && j == 3 { assert(lines_for(t)[2]@ != lines_for(t)[3]@); }
                else if i == 2 && j == 4 { assert(lines_for(t)[2]@ != lines_for(t)[4]@); }
                else if i == 2 && j == 5 { assert(lines_for(t)[2]@ != lines_for(t)[5]@); }
                else if i == 3 && j == 4 { assert(lines_for(t)[3]@ != lines_for(t)[4]@); }
                else if i == 3 && j == 5 { assert(lines_for(t)[3]@ != lines_for(t)[5]@); }
                else if i == 4 && j == 5 { assert(lines_for(t)[4]@ != lines_for(t)[5]@); }
            }
            assert forall|i: int| 0 <= i < lines_for(t).len() implies (#[trigger] lines_for(t)[i])@.len() > 0 by {
                if i == 0 {}
                else if i == 1 {}
                else if i == 2 {}
                else if i == 3 {}
                else if i == 4 {}
                else if i == 5 {}
            }
        },
        Topic::Charging => {
            reveal_strlit("Mmm, a little power snack.");
            reveal_strlit("Recharging my tiny ambitions.");
            reveal_strlit("More energy, more mischief!");
            reveal_strlit("Plugged in and feeling cozy.");
            assert(lines_for(t)[0] == "Mmm, a little power snack." && "Mmm, a little power snack."@.len() == 26);
            assert(lines_for(t)[1] == "Recharging my tiny ambitions." && "Recharging my tiny ambitions."@.len() == 29);
            assert(lines_for(t)[2] == "More energy, more mischief!" && "More energy, more mischief!"@.len() == 27);
            assert(lines_for(t)[3] == "Plugged in and feeling cozy." && "Plugged in and feeling cozy."@.len() == 28);
            assert forall|i: int, j: int| 0 <= i < j < lines_for(t).len() implies (#[trigger] lines_for(t)[i])@ != (#[trigger] lines_for(t)[j])@ by {
                if i == 0 && j == 1 { assert(lines_for(t)[0]@ != lines_for(t)[1]@); }
                else if i == 0 && j == 2 { assert(lines_for(t)[0]@ != lines_for(t)[2]@); }
                else if i == 0 && j == 3 { assert(lines_for(t)[0]@ != lines_for(t)[3]@); }
                else if i == 1 && j == 2 { assert(lines_for(t)[1]@ != lines_for(t)[2]@); }
                else if i == 1 && j == 3 { assert(lines_for(t)[1]@ != lines_for(t)[3]@); }
                else if i == 2 && j == 3 { assert(lines_for(t)[2]@ != lines_for(t)[3]@); }
            }
            assert forall|i: int| 0 <= i < lines_for(t).len() implies (#[trigger] lines_for(t)[i])@.len() > 0 by {
                if i == 0 {}
                else if i == 1 {}
                else if i == 2 {}
                else if i == 3 {}
            }
        },
        Topic::LowPower => {
            reveal_strlit("Could we grab a little charge?");
            reveal_strlit("My tiny batteries need a snack.");
            reveal_strlit("Taking a gentle breather.");
            reveal_strlit("A recharge would be lovely.");
            assert(lines_for(t)[0] == "Could we grab a little charge?" && "Could we grab a little charge?"@.len() == 30);
            assert(lines_for(t)[1] == "My tiny batteries need a snack." && "My tiny batteries need a snack."@.len() == 31);
            assert(lines_for(t)[2] == "Taking a gentle breather." && "Taking a gentle breather."@.len() == 25);
            assert(lines_for(t)[3] == "A recharge would be lovely." && "A recharge would be lovely."@.len() == 27);
            assert forall|i: int, j: int| 0 <= i < j < lines_for(t).len() implies (#[trigger] lines_for(t)[i])@ != (#[trigger] lines_for(t)[j])@ by {
                if i == 0 && j == 1 { assert(lines_for(t)[0]@ != lines_for(t)[1]@); }
                else if i == 0 && j == 2 { assert(lines_for(t)[0]@ != lines_for(t)[2]@); }
                else if i == 0 && j == 3 { assert(lines_for(t)[0]@ != lines_for(t)[3]@); }
                else if i == 1 && j == 2 { assert(lines_for(t)[1]@ != lines_for(t)[2]@); }
                else if i == 1 && j == 3 { assert(lines_for(t)[1]@ != lines_for(t)[3]@); }
                else if i == 2 && j == 3 { assert(lines_for(t)[2]@ != lines_for(t)[3]@); }
            }
            assert forall|i: int| 0 <= i < lines_for(t).len() implies (#[trigger] lines_for(t)[i])@.len() > 0 by {
                if i == 0 {}
                else if i == 1 {}
                else if i == 2 {}
                else if i == 3 {}
            }
        },
        Topic::Searching => {
            reveal_strlit("Where did that signal wander off?");
            reveal_strlit("Searching with my tiny antenna.");
            reveal_strlit("Connection playing hide-and-seek?");
            reveal_strlit("I'll keep an eye out for it.");
            assert(lines_for(t)[0] == "Where did that signal wander off?" && "Where did that signal wander off?"@.len() == 33);
            assert(lines_for(t)[1] == "Searching with my tiny antenna." && "Searching with my tiny antenna."@.len() == 31);
            assert(lines_for(t)[2] == "Connection playing hide-and-seek?" && "Connection playing hide-and-seek?"@.len() == 33);
            assert(lines_for(t)[3] == "I'll keep an eye out for it." && "I'll keep an eye out for it."@.len() == 28);
            assert("Where did that signal wander off?"@[0] == 'W' && "Connection playing hide-and-seek?"@[0] == 'C');
            assert forall|i: int, j: int| 0 <= i < j < lines_for(t).len() implies (#[trigger] lines_for(t)[i])@ != (#[trigger] lines_for(t)[j])@ by {
                if i == 0 && j == 1 { assert(lines_for(t)[0]@ != lines_for(t)[1]@); }
                else if i == 0 && j == 2 { assert(lines_for(t)[0]@ != lines_for(t)[2]@); }
                else if i == 0 && j == 3 { assert(lines_for(t)[0]@ != lines_for(t)[3]@); }
                else if i == 1 && j == 2 { assert(lines_for(t)[1]@ != lines_for(t)[2]@); }
                else if i == 1 && j == 3 { assert(lines_for(t)[1]@ != lines_for(t)[3]@); }
                else if i == 2 && j == 3 { assert(lines_for(t)[2]@ != lines_for(t)[3]@); }
            }
            assert forall|i: int| 0 <= i < lines_for(t).len() implies (#[trigger] lines_for(t)[i])@.len() > 0 by {
                if i == 0 {}
                else if i == 1 {}
                else if i == 2 {}
                else if i == 3 {}
            }
        },
        Topic::Reconnected => {
            reveal_strlit("There it is! We're back.");
            reveal_strlit("Signal found. Tiny victory!");
            reveal_strlit("Hello again, world!");
            assert(lines_for(t)[0] == "There it is! We're back." && "There it is! We're back."@.len() == 24);
            assert(lines_for(t)[1] == "Signal found. Tiny victory!" && "Signal found. Tiny victory!"@.len() == 27);
            assert(lines_for(t)[2] == "Hello again, world!" && "Hello again, world!"@.len() == 19);
            assert forall|i: int, j: int| 0 <= i < j < lines_for(t).len() implies (#[trigger] lines_for(t)[i])@ != (#[trigger] lines_for(t)[j])@ by {
                if i == 0 && j == 1 { assert(lines_for(t)[0]@ != lines_for(t)[1]@); }
                else if i == 0 && j == 2 { assert(lines_for(t)[0]@ != lines_for(t)[2]@); }
                else if i == 1 && j == 2 { assert(lines_for(t)[1]@ != lines_for(t)[2]@); }
            }
            assert forall|i: int| 0 <= i < lines_for(t).len() implies (#[trigger] lines_for(t)[i])@.len() > 0 by {
                if i == 0 {}
                else if i == 1 {}
                else if i == 2 {}
            }
        },
        Topic::Memory => {
            reveal_strlit("RAM use is high. Close unused tabs?");
            reveal_strlit("A little room for more ideas?");
            reveal_strlit("Unused apps might free some RAM.");
            assert(lines_for(t)[0] == "RAM use is high. Close unused tabs?" && "RAM use is high. Close unused tabs?"@.len() == 35);
            assert(lines_for(t)[1] == "A little room for more ideas?" && "A little room for more ideas?"@.len() == 29);
            assert(lines_for(t)[2] == "Unused apps might free some RAM." && "Unused apps might free some RAM."@.len() == 32);
            assert forall|i: int, j: int| 0 <= i < j < lines_for(t).len() implies (#[trigger] lines_for(t)[i])@ != (#[trigger] lines_for(t)[j])@ by {
                if i == 0 && j == 1 { assert(lines_for(t)[0]@ != lines_for(t)[1]@); }
                else if i == 0 && j == 2 { assert(lines_for(t)[0]@ != lines_for(t)[2]@); }
                else if i == 1 && j == 2 { assert(lines_for(t)[1]@ != lines_for(t)[2]@); }
            }
            assert forall|i: int| 0 <= i < lines_for(t).len() implies (#[trigger] lines_for(t)[i])@.len() > 0 by {
                if i == 0 {}
                else if i == 1 {}
                else if i == 2 {}
            }
        },
        Topic::Busy => {
            reveal_strlit("Big task? I'll help by cheering.");
            reveal_strlit("Your very small coworker.");
            reveal_strlit("One little step at a time.");
            reveal_strlit("Typing with my tiny sleeves!");
            assert(lines_for(t)[0] == "Big task? I'll help by cheering." && "Big task? I'll help by cheering."@.len() == 32);
            assert(lines_for(t)[1] == "Your very small coworker." && "Your very small coworker."@.len() == 25);
            assert(lines_for(t)[2] == "One little step at a time." && "One little step at a time."@.len() == 26);
            assert(lines_for(t)[3] == "Typing with my tiny sleeves!" && "Typing with my tiny sleeves!"@.len() == 28);
            assert forall|i: int, j: int| 0 <= i < j < lines_for(t).len() implies (#[trigger] lines_for(t)[i])@ != (#[trigger] lines_for(t)[j])@ by {
                if i == 0 && j == 1 { assert(lines_for(t)[0]@ != lines_for(t)[1]@); }
                else if i == 0 && j == 2 { assert(lines_for(t)[0]@ != lines_for(t)[2]@); }
                else if i == 0 && j == 3 { assert(lines_for(t)[0]@ != lines_for(t)[3]@); }
                else if i == 1 && j == 2 { assert(lines_for(t)[1]@ != lines_for(t)[2]@); }
                else if i == 1 && j == 3 { assert(lines_for(t)[1]@ != lines_for(t)[3]@); }
                else if i == 2 && j == 3 { assert(lines_for(t)[2]@ != lines_for(t)[3]@); }
            }
            assert forall|i: int| 0 <= i < lines_for(t).len() implies (#[trigger] lines_for(t)[i])@.len() > 0 by {
                if i == 0 {}
                else if i == 1 {}
                else if i == 2 {}
                else if i == 3 {}
            }
        },
        Topic::Music => {
            reveal_strlit("Ooh, a little music!");
            reveal_strlit("This deserves a tiny dance.");
            reveal_strlit("Good tunes, good company.");
            reveal_strlit("Quietly vibing beside you.");
            assert(lines_for(t)[0] == "Ooh, a little music!" && "Ooh, a little music!"@.len() == 20);
            assert(lines_for(t)[1] == "This deserves a tiny dance." && "This deserves a tiny dance."@.len() == 27);
            assert(lines_for(t)[2] == "Good tunes, good company." && "Good tunes, good company."@.len() == 25);
            assert(lines_for(t)[3] == "Quietly vibing beside you." && "Quietly vibing beside you."@.len() == 26);
            assert forall|i: int, j: int| 0 <= i < j < lines_for(t).len() implies (#[trigger] lines_for(t)[i])@ != (#[trigger] lines_for(t)[j])@ by {
                if i == 0 && j == 1 { assert(lines_for(t)[0]@ != lines_for(t)[1]@); }
                else if i == 0 && j == 2 { assert(lines_for(t)[0]@ != lines_for(t)[2]@); }
                else if i == 0 && j == 3 { assert(lines_for(t)[0]@ != lines_for(t)[3]@); }
                else if i == 1 && j == 2 { assert(lines_for(t)[1]@ != lines_for(t)[2]@); }
                else if i == 1 && j == 3 { assert(lines_for(t)[1]@ != lines_for(t)[3]@); }
                else if i == 2 && j == 3 { assert(lines_for(t)[2]@ != lines_for(t)[3]@); }
            }
            assert forall|i: int| 0 <= i < lines_for(t).len() implies (#[trigger] lines_for(t)[i])@.len() > 0 by {
                if i == 0 {}
                else if i == 1 {}
                else if i == 2 {}
                else if i == 3 {}
            }
        },
        Topic::Sleepy => {
            reveal_strlit("Just five tiny minutes...");
            reveal_strlit("Dreaming of little adventures.");
            reveal_strlit("A cozy nap, then more fun.");
            reveal_strlit("Saving a little energy.");
            assert(lines_for(t)[0] == "Just five tiny minutes..." && "Just five tiny minutes..."@.len() == 25);
            assert(lines_for(t)[1] == "Dreaming of little adventures." && "Dreaming of little adventures."@.len() == 30);
            assert(lines_for(t)[2] == "A cozy nap, then more fun." && "A cozy nap, then more fun."@.len() == 26);
            assert(lines_for(t)[3] == "Saving a little energy." && "Saving a little energy."@.len() == 23);
            assert forall|i: int, j: int| 0 <= i < j < lines_for(t).len() implies (#[trigger] lines_for(t)[i])@ != (#[trigger] lines_for(t)[j])@ by {
                if i == 0 && j == 1 { assert(lines_for(t)[0]@ != lines_for(t)[1]@); }
                else if i == 0 && j == 2 { assert(lines_for(t)[0]@ != lines_for(t)[2]@); }
                else if i == 0 && j == 3 { assert(lines_for(t)[0]@ != lines_for(t)[3]@); }
                else if i == 1 && j == 2 { assert(lines_for(t)[1]@ != lines_for(t)[2]@); }
                else if i == 1 && j == 3 { assert(lines_for(t)[1]@ != lines_for(t)[3]@); }
                else if i == 2 && j == 3 { assert(lines_for(t)[2]@ != lines_for(t)[3]@); }
            }
            assert forall|i: int| 0 <= i < lines_for(t).len() implies (#[trigger] lines_for(t)[i])@.len() > 0 by {
                if i == 0 {}
                else if i == 1 {}
                else if i == 2 {}
                else if i == 3 {}
            }
        },
        Topic::Joy => {
            reveal_strlit("Tiny victory dance!");
            reveal_strlit("That deserves a happy hop.");
            reveal_strlit("A little joy, just because.");
            reveal_strlit("Confetti for the small wins!");
            assert(lines_for(t)[0] == "Tiny victory dance!" && "Tiny victory dance!"@.len() == 19);
            assert(lines_for(t)[1] == "That deserves a happy hop." && "That deserves a happy hop."@.len() == 26);
            assert(lines_for(t)[2] == "A little joy, just because." && "A little joy, just because."@.len() == 27);
            assert(lines_for(t)[3] == "Confetti for the small wins!" && "Confetti for the small wins!"@.len() == 28);
            assert forall|i: int, j: int| 0 <= i < j < lines_for(t).len() implies (#[trigger] lines_for(t)[i])@ != (#[trigger] lines_for(t)[j])@ by {
                if i == 0 && j == 1 { assert(lines_for(t)[0]@ != lines_for(t)[1]@); }
                else if i == 0 && j == 2 { assert(lines_for(t)[0]@ != lines_for(t)[2]@); }
                else if i == 0 && j == 3 { assert(lines_for(t)[0]@ != lines_for(t)[3]@); }
                else if i == 1 && j == 2 { assert(lines_for(t)[1]@ != lines_for(t)[2]@); }
                else if i == 1 && j == 3 { assert(lines_for(t)[1]@ != lines_for(t)[3]@); }
                else if i == 2 && j == 3 { assert(lines_for(t)[2]@ != lines_for(t)[3]@); }
            }
            assert forall|i: int| 0 <= i < lines_for(t).len() implies (#[trigger] lines_for(t)[i])@.len() > 0 by {
                if i == 0 {}
                else if i == 1 {}
                else if i == 2 {}
                else if i == 3 {}
            }
        },
        Topic::Stretch => {
            reveal_strlit("Stretching my very tiny legs.");
            reveal_strlit("A little wiggle helps.");
            reveal_strlit("Tiny steps, big plans.");
            reveal_strlit("Time for a sleeve stretch.");
            assert(lines_for(t)[0] == "Stretching my very tiny legs." && "Stretching my very tiny legs."@.len() == 29);
            assert(lines_for(t)[1] == "A little wiggle helps." && "A little wiggle helps."@.len() == 22);
            assert(lines_for(t)[2] == "Tiny steps, big plans." && "Tiny steps, big plans."@.len() == 22);
            assert(lines_for(t)[3] == "Time for a sleeve stretch." && "Time for a sleeve stretch."@.len() == 26);
            assert("A little wiggle helps."@[0] == 'A' && "Tiny steps, big plans."@[0] == 'T');
            assert forall|i: int, j: int| 0 <= i < j < lines_for(t).len() implies (#[trigger] lines_for(t)[i])@ != (#[trigger] lines_for(t)[j])@ by {
                if i == 0 && j == 1 { assert(lines_for(t)[0]@ != lines_for(t)[1]@); }
                else if i == 0 && j == 2 { assert(lines_for(t)[0]@ != lines_for(t)[2]@); }
                else if i == 0 && j == 3 { assert(lines_for(t)[0]@ != lines_for(t)[3]@); }
                else if i == 1 && j == 2 { assert(lines_for(t)[1]@ != lines_for(t)[2]@); }
                else if i == 1 && j == 3 { assert(lines_for(t)[1]@ != lines_for(t)[3]@); }
                else if i == 2 && j == 3 { assert(lines_for(t)[2]@ != lines_for(t)[3]@); }
            }
            assert forall|i: int| 0 <= i < lines_for(t).len() implies (#[trigger] lines_for(t)[i])@.len() > 0 by {
                if i == 0 {}
                else if i == 1 {}
                else if i == 2 {}
                else if i == 3 {}
            }
        },
        Topic::Curious => {
            reveal_strlit("What's cooking over there?");
            reveal_strlit("Is that our next adventure?");
            reveal_strlit("Thinking my tiny thoughts.");
            reveal_strlit("What should we make next?");
            assert(lines_for(t)[0] == "What's cooking over there?" && "What's cooking over there?"@.len() == 26);
            assert(lines_for(t)[1] == "Is that our next adventure?" && "Is that our next adventure?"@.len() == 27);
            assert(lines_for(t)[2] == "Thinking my tiny thoughts." && "Thinking my tiny thoughts."@.len() == 26);
            assert(lines_for(t)[3] == "What should we make next?" && "What should we make next?"@.len() == 25);
            assert("What's cooking over there?"@[0] == 'W' && "Thinking my tiny thoughts."@[0] == 'T');
            assert forall|i: int, j: int| 0 <= i < j < lines_for(t).len() implies (#[trigger] lines_for(t)[i])@ != (#[trigger] lines_for(t)[j])@ by {
                if i == 0 && j == 1 { assert(lines_for(t)[0]@ != lines_for(t)[1]@); }
                else if i == 0 && j == 2 { assert(lines_for(t)[0]@ != lines_for(t)[2]@); }
                else if i == 0 && j == 3 { assert(lines_for(t)[0]@ != lines_for(t)[3]@); }
                else if i == 1 && j == 2 { assert(lines_for(t)[1]@ != lines_for(t)[2]@); }
                else if i == 1 && j == 3 { assert(lines_for(t)[1]@ != lines_for(t)[3]@); }
                else if i == 2 && j == 3 { assert(lines_for(t)[2]@ != lines_for(t)[3]@); }
            }
            assert forall|i: int| 0 <= i < lines_for(t).len() implies (#[trigger] lines_for(t)[i])@.len() > 0 by {
                if i == 0 {}
                else if i == 1 {}
                else if i == 2 {}
                else if i == 3 {}
            }
        },
        Topic::Company => {
            reveal_strlit("Happy to keep you company.");
            reveal_strlit("Little steps still count.");
            reveal_strlit("Here for the cozy work hours.");
            reveal_strlit("We make a pretty good team.");
            reveal_strlit("A tiny friend for your big ideas.");
            reveal_strlit("Remember to stretch your shoulders.");
            reveal_strlit("I'm enjoying our little corner.");
            reveal_strlit("No rush. We can take our time.");
            assert(lines_for(t)[0] == "Happy to keep you company." && "Happy to keep you company."@.len() == 26);
            assert(lines_for(t)[1] == "Little steps still count." && "Little steps still count."@.len() == 25);
            assert(lines_for(t)[2] == "Here for the cozy work hours." && "Here for the cozy work hours."@.len() == 29);
            assert(lines_for(t)[3] == "We make a pretty good team." && "We make a pretty good team."@.len() == 27);
            assert(lines_for(t)[4] == "A tiny friend for your big ideas." && "A tiny friend for your big ideas."@.len() == 33);
            assert(lines_for(t)[5] == "Remember to stretch your shoulders." && "Remember to stretch your shoulders."@.len() == 35);
            assert(lines_for(t)[6] == "I'm enjoying our little corner." && "I'm enjoying our little corner."@.len() == 31);
            assert(lines_for(t)[7] == "No rush. We can take our time." && "No rush. We can take our time."@.len() == 30);
            assert forall|i: int, j: int| 0 <= i < j < lines_for(t).len() implies (#[trigger] lines_for(t)[i])@ != (#[trigger] lines_for(t)[j])@ by {
                if i == 0 && j == 1 { assert(lines_for(t)[0]@ != lines_for(t)[1]@); }
                else if i == 0 && j == 2 { assert(lines_for(t)[0]@ != lines_for(t)[2]@); }
                else if i == 0 && j == 3 { assert(lines_for(t)[0]@ != lines_for(t)[3]@); }
                else if i == 0 && j == 4 { assert(lines_for(t)[0]@ != lines_for(t)[4]@); }
                else if i == 0 && j == 5 { assert(lines_for(t)[0]@ != lines_for(t)[5]@); }
                else if i == 0 && j == 6 { assert(lines_for(t)[0]@ != lines_for(t)[6]@); }
                else if i == 0 && j == 7 { assert(lines_for(t)[0]@ != lines_for(t)[7]@); }
                else if i == 1 && j == 2 { assert(lines_for(t)[1]@ != lines_for(t)[2]@); }
                else if i == 1 && j == 3 { assert(lines_for(t)[1]@ != lines_for(t)[3]@); }
                else if i == 1 && j == 4 { assert(lines_for(t)[1]@ != lines_for(t)[4]@); }
                else if i == 1 && j == 5 { assert(lines_for(t)[1]@ != lines_for(t)[5]@); }
                else if i == 1 && j == 6 { assert(lines_for(t)[1]@ != lines_for(t)[6]@); }
                else if i == 1 && j == 7 { assert(lines_for(t)[1]@ != lines_for(t)[7]@); }
                else if i == 2 && j == 3 { assert(lines_for(t)[2]@ != lines_for(t)[3]@); }
                else if i == 2 && j == 4 { assert(lines_for(t)[2]@ != lines_for(t)[4]@); }
                else if i == 2 && j == 5 { assert(lines_for(t)[2]@ != lines_for(t)[5]@); }
                else if i == 2 && j == 6 { assert(lines_for(t)[2]@ != lines_for(t)[6]@); }
                else if i == 2 && j == 7 { assert(lines_for(t)[2]@ != lines_for(t)[7]@); }
                else if i == 3 && j == 4 { assert(lines_for(t)[3]@ != lines_for(t)[4]@); }
                else if i == 3 && j == 5 { assert(lines_for(t)[3]@ != lines_for(t)[5]@); }
                else if i == 3 && j == 6 { assert(lines_for(t)[3]@ != lines_for(t)[6]@); }
                else if i == 3 && j == 7 { assert(lines_for(t)[3]@ != lines_for(t)[7]@); }
                else if i == 4 && j == 5 { assert(lines_for(t)[4]@ != lines_for(t)[5]@); }
                else if i == 4 && j == 6 { assert(lines_for(t)[4]@ != lines_for(t)[6]@); }
                else if i == 4 && j == 7 { assert(lines_for(t)[4]@ != lines_for(t)[7]@); }
                else if i == 5 && j == 6 { assert(lines_for(t)[5]@ != lines_for(t)[6]@); }
                else if i == 5 && j == 7 { assert(lines_for(t)[5]@ != lines_for(t)[7]@); }
                else if i == 6 && j == 7 { assert(lines_for(t)[6]@ != lines_for(t)[7]@); }
            }
            assert forall|i: int| 0 <= i < lines_for(t).len() implies (#[trigger] lines_for(t)[i])@.len() > 0 by {
                if i == 0 {}
                else if i == 1 {}
                else if i == 2 {}
                else if i == 3 {}
                else if i == 4 {}
                else if i == 5 {}
                else if i == 6 {}
                else if i == 7 {}
            }
        },
    }
}

/// Every line the companion can say, topic after topic.
pub open spec fn all_lines() -> Seq<&'static str> {
    lines_for(Topic::Hover)
        + lines_for(Topic::Greeting)
        + lines_for(Topic::Charging)
        + lines_for(Topic::LowPower)
        + lines_for(Topic::Searching)
        + lines_for(Topic::Reconnected)
        + lines_for(Topic::Memory)
        + lines_for(Topic::Busy)
        + lines_for(Topic::Music)
        + lines_for(Topic::Sleepy)
        + lines_for(Topic::Joy)
        + lines_for(Topic::Stretch)
        + lines_for(Topic::Curious)
        + lines_for(Topic::Company)
}

/// Where a text stands in `all_lines`, or -1.
pub open spec fn line_position(x: Seq<char>) -> int {
    if x == "Oh, hello you!"@ {
        0
    } else if x == "Need a tiny cheerleader?"@ {
        1
    } else if x == "I saved this spot for you."@ {
        2
    } else if x == "A visitor! My favorite."@ {
        3
    } else if x == "Yes? I'm all ears."@ {
        4
    } else if x == "Your tiny sidekick, reporting in!"@ {
        5
    } else if x == "Hi! What are we making today?"@ {
        6
    } else if x == "One tiny high five!"@ {
        7
    } else if x == "Happy to see you again."@ {
        8
    } else if x == "You've got this. I've got the waving."@ {
        9
    } else if x == "A little hello, just for you."@ {
        10
    } else if x == "I'm rooting for you!"@ {
        11
    } else if x == "Mmm, a little power snack."@ {
        12
    } else if x == "Recharging my tiny ambitions."@ {
        13
    } else if x == "More energy, more mischief!"@ {
        14
    } else if x == "Plugged in and feeling cozy."@ {
        15
    } else if x == "Could we grab a little charge?"@ {
        16
    } else if x == "My tiny batteries need a snack."@ {
        17
    } else if x == "Taking a gentle breather."@ {
        18
    } else if x == "A recharge would be lovely."@ {
        19
    } else if x == "Where did that signal wander off?"@ {
        20
    } else if x == "Searching with my tiny antenna."@ {
        21
    } else if x == "Connection playing hide-and-seek?"@ {
        22
    } else if x == "I'll keep an eye out for it."@ {
        23
    } else if x == "There it is! We're back."@ {
        24
    } else if x == "Signal found. Tiny victory!"@ {
        25
    } else if x == "Hello again, world!"@ {
        26
    } else if x == "RAM use is high. Close unused tabs?"@ {
        27
    } else if x == "A little room for more ideas?"@ {
        28
    } else if x == "Unused apps might free some RAM."@ {
        29
    } else if x == "Big task? I'll help by cheering."@ {
        30
    } else if x == "Your very small coworker."@ {
        31
    } else if x == "One little step at a time."@ {
        32
    } else if x == "Typing with my tiny sleeves!"@ {
        33
    } else if x == "Ooh, a little music!"@ {
        34
    } else if x == "This deserves a tiny dance."@ {
        35
    } else if x == "Good tunes, good company."@ {
        36
    } else if x == "Quietly vibing beside you."@ {
        37
    } else if x == "Just five tiny minutes..."@ {
        38
    } else if x == "Dreaming of little adventures."@ {
        39
    } else if x == "A cozy nap, then more fun."@ {
        40
    } else if x == "Saving a little energy."@ {
        41
    } else if x == "Tiny victory dance!"@ {
        42
    } else if x == "That deserves a happy hop."@ {
        43
    } else if x == "A little joy, just because."@ {
        44
    } else if x == "Confetti for the small wins!"@ {
        45
    } else if x == "Stretching my very tiny legs."@ {
        46
    } else if x == "A little wiggle helps."@ {
        47
    } else if x == "Tiny steps, big plans."@ {
        48
    } else if x == "Time for a sleeve stretch."@ {
        49
    } else if x == "What's cooking over there?"@ {
        50
    } else if x == "Is that our next adventure?"@ {
        51
    } else if x == "Thinking my tiny thoughts."@ {
        52
    } else if x == "What should we make next?"@ {
        53
    } else if x == "Happy to keep you company."@ {
        54
    } else if x == "Little steps still count."@ {
        55
    } else if x == "Here for the cozy work hours."@ {
        56
    } else if x == "We make a pretty good team."@ {
        57
    } else if x == "A tiny friend for your big ideas."@ {
        58
    } else if x == "Remember to stretch your shoulders."@ {
        59
    } else if x == "I'm enjoying our little corner."@ {
        60
    } else if x == "No rush. We can take our time."@ {
        61
    } else {
        -1
    }
}

/// Every line is in its place in `all_lines`, and each is a line of some topic.
pub proof fn lemma_all_lines()
    ensures
        all_lines().len() == 62,
        forall|i: int|
            0 <= i < all_lines().len() ==> line_position((#[trigger] all_lines()[i])@) == i,
        forall|i: int|
            0 <= i < all_lines().len() ==> exists|t: Topic, k: int|
                0 <= k < lines_for(t).len() && #[trigger] lines_for(t)[k] == #[trigger] all_lines()[i],
{
    reveal_strlit("Oh, hello you!");
    reveal_strlit("Need a tiny cheerleader?");
    reveal_strlit("I saved this spot for you.");
    reveal_strlit("A visitor! My favorite.");
    reveal_strlit("Yes? I'm all ears.");
    reveal_strlit("Your tiny sidekick, reporting in!");
    reveal_strlit("Hi! What are we making today?");
    reveal_strlit("One tiny high five!");
    reveal_strlit("Happy to see you again.");
    reveal_strlit("You've got this. I've got the waving.");
    reveal_strlit("A little hello, just for you.");
    reveal_strlit("I'm rooting for you!");
    reveal_strlit("Mmm, a little power snack.");
    reveal_strlit("Recharging my tiny ambitions.");
    reveal_strlit("More energy, more mischief!");
    reveal_strlit("Plugged in and feeling cozy.");
    reveal_strlit("Could we grab a little charge?");
    reveal_strlit("My tiny batteries need a snack.");
    reveal_strlit("Taking a gentle breather.");
    reveal_strlit("A recharge would be lovely.");
    reveal_strlit("Where did that signal wander off?");
    reveal_strlit("Searching with my tiny antenna.");
    reveal_strlit("Connection playing hide-and-seek?");
    reveal_strlit("I'll keep an eye out for it.");
    reveal_strlit("There it is! We're back.");
    reveal_strlit("Signal found. Tiny victory!");
    reveal_strlit("Hello again, world!");
    reveal_strlit("RAM use is high. Close unused tabs?");
    reveal_strlit("A little room for more ideas?");
    reveal_strlit("Unused apps might free some RAM.");
    reveal_strlit("Big task? I'll help by cheering.");
    reveal_strlit("Your very small coworker.");
    reveal_strlit("One little step at a time.");
    reveal_strlit("Typing with my tiny sleeves!");
    reveal_strlit("Ooh, a little music!");
    reveal_strlit("This deserves a tiny dance.");
    reveal_strlit("Good tunes, good company.");
    reveal_strlit("Quietly vibing beside you.");
    reveal_strlit("Just five tiny minutes...");
    reveal_strlit("Dreaming of little adventures.");
    reveal_strlit("A cozy nap, then more fun.");
    reveal_strlit("Saving a little energy.");
    reveal_strlit("Tiny victory dance!");
    reveal_strlit("That deserves a happy hop.");
    reveal_strlit("A little joy, just because.");
    reveal_strlit("Confetti for the small wins!");
    reveal_strlit("Stretching my very tiny legs.");
    reveal_strlit("A little wiggle helps.");
    reveal_strlit("Tiny steps, big plans.");
    reveal_strlit("Time for a sleeve stretch.");
    reveal_strlit("What's cooking over there?");
    reveal_strlit("Is that our next adventure?");
    reveal_strlit("Thinking my tiny thoughts.");
    reveal_strlit("What should we make next?");
    reveal_strlit("Happy to keep you company.");
    reveal_strlit("Little steps still count.");
    reveal_strlit("Here for the cozy work hours.");
    reveal_strlit("We make a pretty good team.");
    reveal_strlit("A tiny friend for your big ideas.");
    reveal_strlit("Remember to stretch your shoulders.");
    reveal_strlit("I'm enjoying our little corner.");
    reveal_strlit("No rush. We can take our time.");
    assert("Oh, hello you!"@.len() == 14);
    assert("Need a tiny cheerleader?"@.len() == 24);
    assert("I saved this spot for you."@.len() == 26);
    assert("A visitor! My favorite."@.len() == 23);
    assert("Yes? I'm all ears."@.len() == 18);
    assert("Your tiny sidekick, reporting in!"@.len() == 33);
    assert("Hi! What are we making today?"@.len() == 29);
    assert("One tiny high five!"@.len() == 19);
    assert("Happy to see you again."@.len() == 23);
    assert("You've got this. I've got the waving."@.len() == 37);
    assert("A little hello, just for you."@.len() == 29);
    assert("I'm rooting for you!"@.len() == 20);
    assert("Mmm, a little power snack."@.len() == 26);
    assert("Recharging my tiny ambitions."@.len() == 29);
    assert("More energy, more mischief!"@.len() == 27);
    assert("Plugged in and feeling cozy."@.len() == 28);
    assert("Could we grab a little charge?"@.len() == 30);
    assert("My tiny batteries need a snack."@.len() == 31);
    assert("Taking a gentle breather."@.len() == 25);
    assert("A recharge would be lovely."@.len() == 27);
    assert("Where did that signal wander off?"@.len() == 33);
    assert("Searching with my tiny antenna."@.len() == 31);
    assert("Connection playing hide-and-seek?"@.len() == 33);
    assert("I'll keep an eye out for it."@.len() == 28);
    assert("There it is! We're back."@.len() == 24);
    assert("Signal found. Tiny victory!"@.len() == 27);
    assert("Hello again, world!"@.len() == 19);
    assert("RAM use is high. Close unused tabs?"@.len() == 35);
    assert("A little room for more ideas?"@.len() == 29);
    assert("Unused apps might free some RAM."@.len() == 32);
    assert("Big task? I'll help by cheering."@.len() == 32);
    assert("Your very small coworker."@.len() == 25);
    assert("One little step at a time."@.len() == 26);
    assert("Typing with my tiny sleeves!"@.len() == 28);
    assert("Ooh, a little music!"@.len() == 20);
    assert("This deserves a tiny dance."@.len() == 27);
    assert("Good tunes, good company."@.len() == 25);
    assert("Quietly vibing beside you."@.len() == 26);
    assert("Just five tiny minutes..."@.len() == 25);
    assert("Dreaming of little adventures."@.len() == 30);
    assert("A cozy nap, then more fun."@.len() == 26);
    assert("Saving a little energy."@.len() == 23);
    assert("Tiny victory dance!"@.len() == 19);
    assert("That deserves a happy hop."@.len() == 26);
    assert("A little joy, just because."@.len() == 27);
    assert("Confetti for the small wins!"@.len() == 28);
    assert("Stretching my very tiny legs."@.len() == 29);
    assert("A little wiggle helps."@.len() == 22);
    assert("Tiny steps, big plans."@.len() == 22);
    assert("Time for a sleeve stretch."@.len() == 26);
    assert("What's cooking over there?"@.len() == 26);
    assert("Is that our next adventure?"@.len() == 27);
    assert("Thinking my tiny thoughts."@.len() == 26);
    assert("What should we make next?"@.len() == 25);
    assert("Happy to keep you company."@.len() == 26);
    assert("Little steps still count."@.len() == 25);
    assert("Here for the cozy work hours."@.len() == 29);
    assert("We make a pretty good team."@.len() == 27);
    assert("A tiny friend for your big ideas."@.len() == 33);
    assert("Remember to stretch your shoulders."@.len() == 35);
    assert("I'm enjoying our little corner."@.len() == 31);
    assert("No rush. We can take our time."@.len() == 30);
    assert("Need a tiny cheerleader?"@[0] == 'N' && "There it is! We're back."@[0] != 'N');
    assert("I saved this spot for you."@[0] == 'I' && "Mmm, a little power snack."@[0] != 'I');
    assert("I saved this spot for you."@[0] == 'I' && "One little step at a time."@[0] != 'I');
    assert("I saved this spot for you."@[0] == 'I' && "Quietly vibing beside you."@[0] != 'I');
    assert("I saved this spot for you."@[0] == 'I' && "A cozy nap, then more fun."@[0] != 'I');
    assert("I saved this spot for you."@[0] == 'I' && "That deserves a happy hop."@[0] != 'I');
    assert("I saved this spot for you."@[0] == 'I' && "Time for a sleeve stretch."@[0] != 'I');
    assert("I saved this spot for you."@[0] == 'I' && "What's cooking over there?"@[0] != 'I');
    assert("I saved this spot for you."@[0] == 'I' && "Thinking my tiny thoughts."@[0] != 'I');
    assert("I saved this spot for you."@[0] == 'I' && "Happy to keep you company."@[0] != 'I');
    assert("A visitor! My favorite."@[0] == 'A' && "Happy to see you again."@[0] != 'A');
    assert("A visitor! My favorite."@[0] == 'A' && "Saving a little energy."@[0] != 'A');
    assert("Your tiny sidekick, reporting in!"@[0] == 'Y' && "Where did that signal wander off?"@[0] != 'Y');
    assert("Your tiny sidekick, reporting in!"@[0] == 'Y' && "Connection playing hide-and-seek?"@[0] != 'Y');
    assert("Your tiny sidekick, reporting in!"@[0] == 'Y' && "A tiny friend for your big ideas."@[0] != 'Y');
    assert("Hi! What are we making today?"@[0] == 'H' && "A little hello, just for you."@[0] != 'H');
    assert("Hi! What are we making today?"@[0] == 'H' && "Recharging my tiny ambitions."@[0] != 'H');
    assert("Hi! What are we making today?"@[0] == 'H' && "A little room for more ideas?"@[0] != 'H');
    assert("Hi! What are we making today?"@[0] == 'H' && "Stretching my very tiny legs."@[0] != 'H');
    assert("Hi! What are we making today?"@[1] == 'i' && "Here for the cozy work hours."@[1] != 'i');
    assert("One tiny high five!"@[0] == 'O' && "Hello again, world!"@[0] != 'O');
    assert("One tiny high five!"@[0] == 'O' && "Tiny victory dance!"@[0] != 'O');
    assert("Happy to see you again."@[0] == 'H' && "Saving a little energy."@[0] != 'H');
    assert("A little hello, just for you."@[0] == 'A' && "Recharging my tiny ambitions."@[0] != 'A');
    assert("A little hello, just for you."@[9] == 'h' && "A little room for more ideas?"@[9] != 'h');
    assert("A little hello, just for you."@[0] == 'A' && "Stretching my very tiny legs."@[0] != 'A');
    assert("A little hello, just for you."@[0] == 'A' && "Here for the cozy work hours."@[0] != 'A');
    assert("I'm rooting for you!"@[0] == 'I' && "Ooh, a little music!"@[0] != 'I');
    assert("Mmm, a little power snack."@[0] == 'M' && "One little step at a time."@[0] != 'M');
    assert("Mmm, a little power snack."@[0] == 'M' && "Quietly vibing beside you."@[0] != 'M');
    assert("Mmm, a little power snack."@[0] == 'M' && "A cozy nap, then more fun."@[0] != 'M');
    assert("Mmm, a little power snack."@[0] == 'M' && "That deserves a happy hop."@[0] != 'M');
    assert("Mmm, a little power snack."@[0] == 'M' && "Time for a sleeve stretch."@[0] != 'M');
    assert("Mmm, a little power snack."@[0] == 'M' && "What's cooking over there?"@[0] != 'M');
    assert("Mmm, a little power snack."@[0] == 'M' && "Thinking my tiny thoughts."@[0] != 'M');
    assert("Mmm, a little power snack."@[0] == 'M' && "Happy to keep you company."@[0] != 'M');
    assert("Recharging my tiny ambitions."@[0] == 'R' && "A little room for more ideas?"@[0] != 'R');
    assert("Recharging my tiny ambitions."@[0] == 'R' && "Stretching my very tiny legs."@[0] != 'R');
    assert("Recharging my tiny ambitions."@[0] == 'R' && "Here for the cozy work hours."@[0] != 'R');
    assert("More energy, more mischief!"@[0] == 'M' && "A recharge would be lovely."@[0] != 'M');
    assert("More energy, more mischief!"@[0] == 'M' && "Signal found. Tiny victory!"@[0] != 'M');
    assert("More energy, more mischief!"@[0] == 'M' && "This deserves a tiny dance."@[0] != 'M');
    assert("More energy, more mischief!"@[0] == 'M' && "A little joy, just because."@[0] != 'M');
    assert("More energy, more mischief!"@[0] == 'M' && "Is that our next adventure?"@[0] != 'M');
    assert("More energy, more mischief!"@[0] == 'M' && "We make a pretty good team."@[0] != 'M');
    assert("Plugged in and feeling cozy."@[0] == 'P' && "I'll keep an eye out for it."@[0] != 'P');
    assert("Plugged in and feeling cozy."@[0] == 'P' && "Typing with my tiny sleeves!"@[0] != 'P');
    assert("Plugged in and feeling cozy."@[0] == 'P' && "Confetti for the small wins!"@[0] != 'P');
    assert("Could we grab a little charge?"@[0] == 'C' && "Dreaming of little adventures."@[0] != 'C');
    assert("Could we grab a little charge?"@[0] == 'C' && "No rush. We can take our time."@[0] != 'C');
    assert("My tiny batteries need a snack."@[0] == 'M' && "Searching with my tiny antenna."@[0] != 'M');
    assert("My tiny batteries need a snack."@[0] == 'M' && "I'm enjoying our little corner."@[0] != 'M');
    assert("Taking a gentle breather."@[0] == 'T' && "Your very small coworker."@[0] != 'T');
    assert("Taking a gentle breather."@[0] == 'T' && "Good tunes, good company."@[0] != 'T');
    assert("Taking a gentle breather."@[0] == 'T' && "Just five tiny minutes..."@[0] != 'T');
    assert("Taking a gentle breather."@[0] == 'T' && "What should we make next?"@[0] != 'T');
    assert("Taking a gentle breather."@[0] == 'T' && "Little steps still count."@[0] != 'T');
    assert("A recharge would be lovely."@[0] == 'A' && "Signal found. Tiny victory!"@[0] != 'A');
    assert("A recharge would be lovely."@[0] == 'A' && "This deserves a tiny dance."@[0] != 'A');
    assert("A recharge would be lovely."@[2] == 'r' && "A little joy, just because."@[2] != 'r');
    assert("A recharge would be lovely."@[0] == 'A' && "Is that our next adventure?"@[0] != 'A');
    assert("A recharge would be lovely."@[0] == 'A' && "We make a pretty good team."@[0] != 'A');
    assert("Where did that signal wander off?"@[0] == 'W' && "Connection playing hide-and-seek?"@[0] != 'W');
    assert("Where did that signal wander off?"@[0] == 'W' && "A tiny friend for your big ideas."@[0] != 'W');
    assert("Searching with my tiny antenna."@[0] == 'S' && "I'm enjoying our little corner."@[0] != 'S');
    assert("Connection playing hide-and-seek?"@[0] == 'C' && "A tiny friend for your big ideas."@[0] != 'C');
    assert("I'll keep an eye out for it."@[0] == 'I' && "Typing with my tiny sleeves!"@[0] != 'I');
    assert("I'll keep an eye out for it."@[0] == 'I' && "Confetti for the small wins!"@[0] != 'I');
    assert("Signal found. Tiny victory!"@[0] == 'S' && "This deserves a tiny dance."@[0] != 'S');
    assert("Signal found. Tiny victory!"@[0] == 'S' && "A little joy, just because."@[0] != 'S');
    assert("Signal found. Tiny victory!"@[0] == 'S' && "Is that our next adventure?"@[0] != 'S');
    assert("Signal found. Tiny victory!"@[0] == 'S' && "We make a pretty good team."@[0] != 'S');
    assert("Hello again, world!"@[0] == 'H' && "Tiny victory dance!"@[0] != 'H');
    assert("RAM use is high. Close unused tabs?"@[1] == 'A' && "Remember to stretch your shoulders."@[1] != 'A');
    assert("A little room for more ideas?"@[0] == 'A' && "Stretching my very tiny legs."@[0] != 'A');
    assert("A little room for more ideas?"@[0] == 'A' && "Here for the cozy work hours."@[0] != 'A');
    assert("Unused apps might free some RAM."@[0] == 'U' && "Big task? I'll help by cheering."@[0] != 'U');
    assert("Your very small coworker."@[0] == 'Y' && "Good tunes, good company."@[0] != 'Y');
    assert("Your very small coworker."@[0] == 'Y' && "Just five tiny minutes..."@[0] != 'Y');
    assert("Your very small coworker."@[0] == 'Y' && "What should we make next?"@[0] != 'Y');
    assert("Your very small coworker."@[0] == 'Y' && "Little steps still count."@[0] != 'Y');
    assert("One little step at a time."@[0] == 'O' && "Quietly vibing beside you."@[0] != 'O');
    assert("One little step at a time."@[0] == 'O' && "A cozy nap, then more fun."@[0] != 'O');
    assert("One little step at a time."@[0] == 'O' && "That deserves a happy hop."@[0] != 'O');
    assert("One little step at a time."@[0] == 'O' && "Time for a sleeve stretch."@[0] != 'O');
    assert("One little step at a time."@[0] == 'O' && "What's cooking over there?"@[0] != 'O');
    assert("One little step at a time."@[0] == 'O' && "Thinking my tiny thoughts."@[0] != 'O');
    assert("One little step at a time."@[0] == 'O' && "Happy to keep you company."@[0] != 'O');
    assert("Typing with my tiny sleeves!"@[0] == 'T' && "Confetti for the small wins!"@[0] != 'T');
    assert("This deserves a tiny dance."@[0] == 'T' && "A little joy, just because."@[0] != 'T');
    assert("This deserves a tiny dance."@[0] == 'T' && "Is that our next adventure?"@[0] != 'T');
    assert("This deserves a tiny dance."@[0] == 'T' && "We make a pretty good team."@[0] != 'T');
    assert("Good tunes, good company."@[0] == 'G' && "Just five tiny minutes..."@[0] != 'G');
    assert("Good tunes, good company."@[0] == 'G' && "What should we make next?"@[0] != 'G');
    assert("Good tunes, good company."@[0] == 'G' && "Little steps still count."@[0] != 'G');
    assert("Quietly vibing beside you."@[0] == 'Q' && "A cozy nap, then more fun."@[0] != 'Q');
    assert("Quietly vibing beside you."@[0] == 'Q' && "That deserves a happy hop."@[0] != 'Q');
    assert("Quietly vibing beside you."@[0] == 'Q' && "Time for a sleeve stretch."@[0] != 'Q');
    assert("Quietly vibing beside you."@[0] == 'Q' && "What's cooking over there?"@[0] != 'Q');
    assert("Quietly vibing beside you."@[0] == 'Q' && "Thinking my tiny thoughts."@[0] != 'Q');
    assert("Quietly vibing beside you."@[0] == 'Q' && "Happy to keep you company."@[0] != 'Q');
    assert("Just five tiny minutes..."@[0] == 'J' && "What should we make next?"@[0] != 'J');
    assert("Just five tiny minutes..."@[0] == 'J' && "Little steps still count."@[0] != 'J');
    assert("Dreaming of little adventures."@[0] == 'D' && "No rush. We can take our time."@[0] != 'D');
    assert("A cozy nap, then more fun."@[0] == 'A' && "That deserves a happy hop."@[0] != 'A');
    assert("A cozy nap, then more fun."@[0] == 'A' && "Time for a sleeve stretch."@[0] != 'A');
    assert("A cozy nap, then more fun."@[0] == 'A' && "What's cooking over there?"@[0] != 'A');
    assert("A cozy nap, then more fun."@[0] == 'A' && "Thinking my tiny thoughts."@[0] != 'A');
    assert("A cozy nap, then more fun."@[0] == 'A' && "Happy to keep you company."@[0] != 'A');
    assert("That deserves a happy hop."@[1] == 'h' && "Time for a sleeve stretch."@[1] != 'h');
    assert("That deserves a happy hop."@[0] == 'T' && "What's cooking over there?"@[0] != 'T');
    assert("That deserves a happy hop."@[2] == 'a' && "Thinking my tiny thoughts."@[2] != 'a');
    assert("That deserves a happy hop."@[0] == 'T' && "Happy to keep you company."@[0] != 'T');
    assert("A little joy, just because."@[0] == 'A' && "Is that our next adventure?"@[0] != 'A');
    assert("A little joy, just because."@[0] == 'A' && "We make a pretty good team."@[0] != 'A');
    assert("Stretching my very tiny legs."@[0] == 'S' && "Here for the cozy work hours."@[0] != 'S');
    assert("A little wiggle helps."@[0] == 'A' && "Tiny steps, big plans."@[0] != 'A');
    assert("Time for a sleeve stretch."@[0] == 'T' && "What's cooking over there?"@[0] != 'T');
    assert("Time for a sleeve stretch."@[1] == 'i' && "Thinking my tiny thoughts."@[1] != 'i');
    assert("Time for a sleeve stretch."@[0] == 'T' && "Happy to keep you company."@[0] != 'T');
    assert("What's cooking over there?"@[0] == 'W' && "Thinking my tiny thoughts."@[0] != 'W');
    assert("What's cooking over there?"@[0] == 'W' && "Happy to keep you company."@[0] != 'W');
    assert("Is that our next adventure?"@[0] == 'I' && "We make a pretty good team."@[0] != 'I');
    assert("Thinking my tiny thoughts."@[0] == 'T' && "Happy to keep you company."@[0] != 'T');
    assert("What should we make next?"@[0] == 'W' && "Little steps still count."@[0] != 'W');
    assert forall|i: int| 0 <= i < all_lines().len() implies line_position(
        (#[trigger] all_lines()[i])@,
    ) == i && exists|t: Topic, k: int|
        0 <= k < lines_for(t).len() && #[trigger] lines_for(t)[k] == all_lines()[i] by {
        if i == 0 { assert(all_lines()[0] == lines_for(Topic::Hover)[0]); }
        else if i == 1 { assert(all_lines()[1] == lines_for(Topic::Hover)[1]); }
        else if i == 2 { assert(all_lines()[2] == lines_for(Topic::Hover)[2]); }
        else if i == 3 { assert(all_lines()[3] == lines_for(Topic::Hover)[3]); }
        else if i == 4 { assert(all_lines()[4] == lines_for(Topic::Hover)[4]); }
        else if i == 5 { assert(all_lines()[5] == lines_for(Topic::Hover)[5]); }
        else if i == 6 { assert(all_lines()[6] == lines_for(Topic::Greeting)[0]); }
        else if i == 7 { assert(all_lines()[7] == lines_for(Topic::Greeting)[1]); }
        else if i == 8 { assert(all_lines()[8] == lines_for(Topic::Greeting)[2]); }
        else if i == 9 { assert(all_lines()[9] == lines_for(Topic::Greeting)[3]); }
        else if i == 10 { assert(all_lines()[10] == lines_for(Topic::Greeting)[4]); }
        else if i == 11 { assert(all_lines()[11] == lines_for(Topic::Greeting)[5]); }
        else if i == 12 { assert(all_lines()[12] == lines_for(Topic::Charging)[0]); }
        else if i == 13 { assert(all_lines()[13] == lines_for(Topic::Charging)[1]); }
        else if i == 14 { assert(all_lines()[14] == lines_for(Topic::Charging)[2]); }
        else if i == 15 { assert(all_lines()[15] == lines_for(Topic::Charging)[3]); }
        else if i == 16 { assert(all_lines()[16] == lines_for(Topic::LowPower)[0]); }
        else if i == 17 { assert(all_lines()[17] == lines_for(Topic::LowPower)[1]); }
        else if i == 18 { assert(all_lines()[18] == lines_for(Topic::LowPower)[2]); }
        else if i == 19 { assert(all_lines()[19] == lines_for(Topic::LowPower)[3]); }
        else if i == 20 { assert(all_lines()[20] == lines_for(Topic::Searching)[0]); }
        else if i == 21 { assert(all_lines()[21] == lines_for(Topic::Searching)[1]); }
        else if i == 22 { assert(all_lines()[22] == lines_for(Topic::Searching)[2]); }
        else if i == 23 { assert(all_lines()[23] == lines_for(Topic::Searching)[3]); }
        else if i == 24 { assert(all_lines()[24] == lines_for(Topic::Reconnected)[0]); }
        else if i == 25 { assert(all_lines()[25] == lines_for(Topic::Reconnected)[1]); }
        else if i == 26 { assert(all_lines()[26] == lines_for(Topic::Reconnected)[2]); }
        else if i == 27 { assert(all_lines()[27] == lines_for(Topic::Memory)[0]); }
        else if i == 28 { assert(all_lines()[28] == lines_for(Topic::Memory)[1]); }
        else if i == 29 { assert(all_lines()[29] == lines_for(Topic::Memory)[2]); }
        else if i == 30 { assert(all_lines()[30] == lines_for(Topic::Busy)[0]); }
        else if i == 31 { assert(all_lines()[31] == lines_for(Topic::Busy)[1]); }
        else if i == 32 { assert(all_lines()[32] == lines_for(Topic::Busy)[2]); }
        else if i == 33 { assert(all_lines()[33] == lines_for(Topic::Busy)[3]); }
        else if i == 34 { assert(all_lines()[34] == lines_for(Topic::Music)[0]); }
        else if i == 35 { assert(all_lines()[35] == lines_for(Topic::Music)[1]); }
        else if i == 36 { assert(all_lines()[36] == lines_for(Topic::Music)[2]); }
        else if i == 37 { assert(all_lines()[37] == lines_for(Topic::Music)[3]); }
        else if i == 38 { assert(all_lines()[38] == lines_for(Topic::Sleepy)[0]); }
        else if i == 39 { assert(all_lines()[39] == lines_for(Topic::Sleepy)[1]); }
        else if i == 40 { assert(all_lines()[40] == lines_for(Topic::Sleepy)[2]); }
        else if i == 41 { assert(all_lines()[41] == lines_for(Topic::Sleepy)[3]); }
        else if i == 42 { assert(all_lines()[42] == lines_for(Topic::Joy)[0]); }
        else if i == 43 { assert(all_lines()[43] == lines_for(Topic::Joy)[1]); }
        else if i == 44 { assert(all_lines()[44] == lines_for(Topic::Joy)[2]); }
        else if i == 45 { assert(all_lines()[45] == lines_for(Topic::Joy)[3]); }
        else if i == 46 { assert(all_lines()[46] == lines_for(Topic::Stretch)[0]); }
        else if i == 47 { assert(all_lines()[47] == lines_for(Topic::Stretch)[1]); }
        else if i == 48 { assert(all_lines()[48] == lines_for(Topic::Stretch)[2]); }
        else if i == 49 { assert(all_lines()[49] == lines_for(Topic::Stretch)[3]); }
        else if i == 50 { assert(all_lines()[50] == lines_for(Topic::Curious)[0]); }
        else if i == 51 { assert(all_lines()[51] == lines_for(Topic::Curious)[1]); }
        else if i == 52 { assert(all_lines()[52] == lines_for(Topic::Curious)[2]); }
        else if i == 53 { assert(all_lines()[53] == lines_for(Topic::Curious)[3]); }
        else if i == 54 { assert(all_lines()[54] == lines_for(Topic::Company)[0]); }
        else if i == 55 { assert(all_lines()[55] == lines_for(Topic::Company)[1]); }
        else if i == 56 { assert(all_lines()[56] == lines_for(Topic::Company)[2]); }
        else if i == 57 { assert(all_lines()[57] == lines_for(Topic::Company)[3]); }
        else if i == 58 { assert(all_lines()[58] == lines_for(Topic::Company)[4]); }
        else if i == 59 { assert(all_lines()[59] == lines_for(Topic::Company)[5]); }
        else if i == 60 { assert(all_lines()[60] == lines_for(Topic::Company)[6]); }
        else if i == 61 { assert(all_lines()[61] == lines_for(Topic::Company)[7]); }
    }
}

fn topic(mood: &str) -> (t: Topic)
    ensures
        t == topic_of(mood@),
{
    if same_text(mood, "hover") {
        Topic::Hover
    } else if same_text(mood, "click") || same_text(mood, "wave") {
        Topic::Greeting
    } else if same_text(mood, "charging") || same_text(mood, "charging_start") {
        Topic::Charging
    } else if same_text(mood, "battery_low") || same_text(mood, "tired") {
        Topic::LowPower
    } else if same_text(mood, "wifi_search") || same_text(mood, "wifi_lost") {
        Topic::Searching
    } else if same_text(mood, "wifi_restored") {
        Topic::Reconnected
    } else if same_text(mood, "memory_high") || same_text(mood, "memory_critical") {
        Topic::Memory
    } else if same_text(mood, "cpu_high") || same_text(mood, "cpu_critical") || same_text(
        mood,
        "desk",
    ) {
        Topic::Busy
    } else if same_text(mood, "dance") || same_text(mood, "headphones_idle") || same_text(
        mood,
        "headphones_reaction",
    ) {
        Topic::Music
    } else if same_text(mood, "sleep") || same_text(mood, "nap") {
        Topic::Sleepy
    } else if same_text(mood, "celebrate") || same_text(mood, "play") {
        Topic::Joy
    } else if same_text(mood, "walk") {
        Topic::Stretch
    } else if same_text(mood, "curious") {
        Topic::Curious
    } else {
        Topic::Company
    }
}

fn lines(topic: Topic) -> (v: Vec<&'static str>)
    ensures
        v@ == lines_for(topic),
{
    let v = match topic {
        Topic::Hover => vec![
            "Oh, hello you!",
            "Need a tiny cheerleader?",
            "I saved this spot for you.",
            "A visitor! My favorite.",
            "Yes? I'm all ears.",
            "Your tiny sidekick, reporting in!",
        ],
        Topic::Greeting => vec![
            "Hi! What are we making today?",
            "One tiny high five!",
            "Happy to see you again.",
            "You've got this. I've got the waving.",
            "A little hello, just for you.",
            "I'm rooting for you!",
        ],
        Topic::Charging => vec![
            "Mmm, a little power snack.",
            "Recharging my tiny ambitions.",
            "More energy, more mischief!",
            "Plugged in and feeling cozy.",
        ],
        Topic::LowPower => vec![
            "Could we grab a little charge?",
            "My tiny batteries need a snack.",
            "Taking a gentle breather.",
            "A recharge would be lovely.",
        ],
        Topic::Searching => vec![
            "Where did that signal wander off?",
            "Searching with my tiny antenna.",
            "Connection playing hide-and-seek?",
            "I'll keep an eye out for it.",
        ],
        Topic::Reconnected => vec![
            "There it is! We're back.",
            "Signal found. Tiny victory!",
            "Hello again, world!",
        ],
        Topic::Memory => vec![
            "RAM use is high. Close unused tabs?",
            "A little room for more ideas?",
            "Unused apps might free some RAM.",
        ],
        Topic::Busy => vec![
            "Big task? I'll help by cheering.",
            "Your very small coworker.",
            "One little step at a time.",
            "Typing with my tiny sleeves!",
        ],
        Topic::Music => vec![
            "Ooh, a little music!",
            "This deserves a tiny dance.",
            "Good tunes, good company.",
            "Quietly vibing beside you.",
        ],
        Topic::Sleepy => vec![
            "Just five tiny minutes...",
            "Dreaming of little adventures.",
            "A cozy nap, then more fun.",
            "Saving a little energy.",
        ],
        Topic::Joy => vec![
            "Tiny victory dance!",
            "That deserves a happy hop.",
            "A little joy, just because.",
            "Confetti for the small wins!",
        ],
        Topic::Stretch => vec![
            "Stretching my very tiny legs.",
            "A little wiggle helps.",
            "Tiny steps, big plans.",
            "Time for a sleeve stretch.",
        ],
        Topic::Curious => vec![
            "What's cooking over there?",
            "Is that our next adventure?",
            "Thinking my tiny thoughts.",
            "What should we make next?",
        ],
        Topic::Company => vec![
            "Happy to keep you company.",
            "Little steps still count.",
            "Here for the cozy work hours.",
            "We make a pretty good team.",
            "A tiny friend for your big ideas.",
            "Remember to stretch your shoulders.",
            "I'm enjoying our little corner.",
            "No rush. We can take our time.",
        ],
    };
    assert(v@ =~= lines_for(topic));
    v
}

/// Short, varied lines that work for every selectable companion: the lines of the
/// mood's topic, taken in turn by `index`.
pub fn line(mood: &str, index: usize) -> (r: &'static str)
    ensures
        lines_for(topic_of(mood@)).len() > 0,
        r == lines_for(topic_of(mood@))[index as int % lines_for(topic_of(mood@)).len() as int],
{
    let v = lines(topic(mood));
    v[index % v.len()]
}

} // verus!
