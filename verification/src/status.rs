//! The two status vocabularies: one for what is watched, one for what is read.
//!
//! Each has five states. `Watching` answers to `Reading` and `PlanToWatch` to
//! `PlanToRead`; `Completed`, `OnHold` and `Dropped` bear the same name in both.

use vstd::prelude::*;

verus! {

/// Where a film or a series stands.
#[derive(Debug, Clone, Copy, PartialEq, Eq, Hash, Structural)]
pub enum WatchStatus {
    Watching,
    PlanToWatch,
    Completed,
    OnHold,
    Dropped,
}

/// Where a readable work stands.
#[derive(Debug, Clone, Copy, PartialEq, Eq, Hash, Structural)]
pub enum ReadStatus {
    Reading,
    PlanToRead,
    Completed,
    OnHold,
    Dropped,
}

/// The tag under which a watch status is written.
pub open spec fn watch_word(s: WatchStatus) -> Seq<char> {
    match s {
        WatchStatus::Watching => "watching"@,
        WatchStatus::PlanToWatch => "plan_to_watch"@,
        WatchStatus::Completed => "completed"@,
        WatchStatus::OnHold => "on_hold"@,
        WatchStatus::Dropped => "dropped"@,
    }
}

/// The tag under which a read status is written.
pub open spec fn read_word(s: ReadStatus) -> Seq<char> {
    match s {
        ReadStatus::Reading => "reading"@,
        ReadStatus::PlanToRead => "plan_to_read"@,
        ReadStatus::Completed => "completed"@,
        ReadStatus::OnHold => "on_hold"@,
        ReadStatus::Dropped => "dropped"@,
    }
}

/// The read status that answers to a watch status.
pub open spec fn read_equivalent(s: WatchStatus) -> ReadStatus {
    match s {
        WatchStatus::Watching => ReadStatus::Reading,
        WatchStatus::PlanToWatch => ReadStatus::PlanToRead,
        WatchStatus::Completed => ReadStatus::Completed,
        WatchStatus::OnHold => ReadStatus::OnHold,
        WatchStatus::Dropped => ReadStatus::Dropped,
    }
}

/// The watch status that answers to a read status.
pub open spec fn watch_equivalent(s: ReadStatus) -> WatchStatus {
    match s {
        ReadStatus::Reading => WatchStatus::Watching,
        ReadStatus::PlanToRead => WatchStatus::PlanToWatch,
        ReadStatus::Completed => WatchStatus::Completed,
        ReadStatus::OnHold => WatchStatus::OnHold,
        ReadStatus::Dropped => WatchStatus::Dropped,
    }
}

/// The watch status that a tag of the watch vocabulary names, if it names one.
pub open spec fn watch_named(word: Seq<char>) -> Option<WatchStatus> {
    if word == "watching"@ {
        Some(WatchStatus::Watching)
    } else if word == "plan_to_watch"@ {
        Some(WatchStatus::PlanToWatch)
    } else if word == "completed"@ {
        Some(WatchStatus::Completed)
    } else if word == "on_hold"@ {
        Some(WatchStatus::OnHold)
    } else if word == "dropped"@ {
        Some(WatchStatus::Dropped)
    } else {
        None
    }
}

/// The read status that a tag of the read vocabulary names, if it names one.
pub open spec fn read_named(word: Seq<char>) -> Option<ReadStatus> {
    if word == "reading"@ {
        Some(ReadStatus::Reading)
    } else if word == "plan_to_read"@ {
        Some(ReadStatus::PlanToRead)
    } else if word == "completed"@ {
        Some(ReadStatus::Completed)
    } else if word == "on_hold"@ {
        Some(ReadStatus::OnHold)
    } else if word == "dropped"@ {
        Some(ReadStatus::Dropped)
    } else {
        None
    }
}

/// The seven tags of the two vocabularies differ from one another.
pub proof fn lemma_status_words_differ()
    ensures
        "watching"@ != "reading"@,
        "watching"@ != "plan_to_watch"@,
        "watching"@ != "plan_to_read"@,
        "watching"@ != "completed"@,
        "watching"@ != "on_hold"@,
        "watching"@ != "dropped"@,
        "reading"@ != "plan_to_watch"@,
        "reading"@ != "plan_to_read"@,
        "reading"@ != "completed"@,
        "reading"@ != "on_hold"@,
        "reading"@ != "dropped"@,
        "plan_to_watch"@ != "plan_to_read"@,
        "plan_to_watch"@ != "completed"@,
        "plan_to_watch"@ != "on_hold"@,
        "plan_to_watch"@ != "dropped"@,
        "plan_to_read"@ != "completed"@,
        "plan_to_read"@ != "on_hold"@,
        "plan_to_read"@ != "dropped"@,
        "completed"@ != "on_hold"@,
        "completed"@ != "dropped"@,
        "on_hold"@ != "dropped"@,
{
    reveal_strlit("watching");
    reveal_strlit("reading");
    reveal_strlit("plan_to_watch");
    reveal_strlit("plan_to_read");
    reveal_strlit("completed");
    reveal_strlit("on_hold");
    reveal_strlit("dropped");
    assert("watching"@.len() == 8);
    assert("reading"@.len() == 7);
    assert("plan_to_watch"@.len() == 13);
    assert("plan_to_read"@.len() == 12);
    assert("completed"@.len() == 9);
    assert("on_hold"@.len() == 7);
    assert("dropped"@.len() == 7);
    assert("reading"@[0] == 'r');
    assert("on_hold"@[0] == 'o');
    assert("dropped"@[0] == 'd');
}

/// Each watch status is the one that its own tag names.
pub proof fn lemma_watch_word_names(s: WatchStatus)
    ensures
        watch_named(watch_word(s)) == Some(s),
{
    lemma_status_words_differ();
}

/// Each read status is the one that its own tag names.
pub proof fn lemma_read_word_names(s: ReadStatus)
    ensures
        read_named(read_word(s)) == Some(s),
{
    lemma_status_words_differ();
}

/// The two equivalences undo each other.
pub proof fn lemma_equivalents_are_inverse(w: WatchStatus, r: ReadStatus)
    ensures
        watch_equivalent(read_equivalent(w)) == w,
        read_equivalent(watch_equivalent(r)) == r,
{
}

impl WatchStatus {
    /// The read status that answers to this one.
    pub fn to_read_status(&self) -> (r: ReadStatus)
        ensures
            r == read_equivalent(*self),
    {
        match self {
            WatchStatus::Watching => ReadStatus::Reading,
            WatchStatus::PlanToWatch => ReadStatus::PlanToRead,
            WatchStatus::Completed => ReadStatus::Completed,
            WatchStatus::OnHold => ReadStatus::OnHold,
            WatchStatus::Dropped => ReadStatus::Dropped,
        }
    }

    /// The tag under which this status is written.
    pub fn as_str(&self) -> (r: &'static str)
        ensures
            r@ == watch_word(*self),
    {
        match self {
            WatchStatus::Watching => "watching",
            WatchStatus::PlanToWatch => "plan_to_watch",
            WatchStatus::Completed => "completed",
            WatchStatus::OnHold => "on_hold",
            WatchStatus::Dropped => "dropped",
        }
    }
}

impl ReadStatus {
    /// The watch status that answers to this one.
    pub fn to_watch_status(&self) -> (r: WatchStatus)
        ensures
            r == watch_equivalent(*self),
    {
        match self {
            ReadStatus::Reading => WatchStatus::Watching,
            ReadStatus::PlanToRead => WatchStatus::PlanToWatch,
            ReadStatus::Completed => WatchStatus::Completed,
            ReadStatus::OnHold => WatchStatus::OnHold,
            ReadStatus::Dropped => WatchStatus::Dropped,
        }
    }

    /// The tag under which this status is written.
    pub fn as_str(&self) -> (r: &'static str)
        ensures
            r@ == read_word(*self),
    {
        match self {
            ReadStatus::Reading => "reading",
            ReadStatus::PlanToRead => "plan_to_read",
            ReadStatus::Completed => "completed",
            ReadStatus::OnHold => "on_hold",
            ReadStatus::Dropped => "dropped",
        }
    }
}

} // verus!
