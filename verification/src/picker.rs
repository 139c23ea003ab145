//! The file picker for the avatar row: what becomes of the file somebody chose,
//! and of a dialog that is still open.

use vstd::prelude::*;

use crate::avatar::{
    a_loaded_picture_is_the_fitted_one, load, load_may_be, outcome, Picture, PictureModel,
};
use crate::exec::Received;

verus! {

/// What came back from one pick.
#[derive(Debug, PartialEq)]
pub enum Picked {
    /// The dialog closed with nothing chosen.
    Cancelled,
    Loaded(Box<Picture>),
    /// The file was chosen but is not usable, in the words of whatever refused
    /// it.
    Failed(String),
}

#[verifier::ext_equal]
pub enum PickedModel {
    Cancelled,
    Loaded(PictureModel),
    Failed(Seq<char>),
}

impl DeepView for Picked {
    type V = PickedModel;

    open spec fn deep_view(&self) -> PickedModel {
        match self {
            Picked::Cancelled => PickedModel::Cancelled,
            Picked::Loaded(picture) => PickedModel::Loaded((**picture).deep_view()),
            Picked::Failed(reason) => PickedModel::Failed(reason@),
        }
    }
}

/// A file that was chosen: its own name, and what reading it gave.
pub struct Chosen {
    pub file: String,
    pub bytes: Result<Vec<u8>, String>,
}

/// What a pick may come to, given what was chosen.
pub open spec fn pick_may_be(chosen: Option<Chosen>, picked: PickedModel) -> bool {
    match chosen {
        None => picked == PickedModel::Cancelled,
        Some(chosen) => match chosen.bytes {
            Err(reason) => picked == PickedModel::Failed(
                chosen.file@ + " could not be read: "@ + reason@,
            ),
            Ok(bytes) => exists|loaded: Result<PictureModel, Seq<char>>| #[trigger]
                load_may_be(chosen.file@, bytes@, loaded) && picked == pick_of(loaded),
        },
    }
}

/// What loading a picture makes of the pick.
pub open spec fn pick_of(loaded: Result<PictureModel, Seq<char>>) -> PickedModel {
    match loaded {
        Ok(picture) => PickedModel::Loaded(picture),
        Err(reason) => PickedModel::Failed(reason),
    }
}

/// What becomes of what was chosen: nothing, a picture fitted and decoded, or
/// the reason it is neither.
pub fn settle(chosen: Option<Chosen>) -> (picked: Picked)
    ensures
        pick_may_be(chosen, picked.deep_view()),
        chosen is None <==> picked is Cancelled,
        chosen matches Some(c) ==> (c.bytes matches Err(reason) ==> (picked matches Picked::Failed(
            text,
        ) && text@ == c.file@ + " could not be read: "@ + reason@)),
{
    let chosen = match chosen {
        Some(chosen) => chosen,
        None => {
            return Picked::Cancelled;
        },
    };
    let file = chosen.file;
    let bytes = match chosen.bytes {
        Ok(bytes) => bytes,
        Err(reason) => {
            let mut said = file;
            said.append(" could not be read: ");
            said.append(reason.as_str());
            return Picked::Failed(said);
        },
    };
    let loaded = load(file, bytes.as_slice());
    let ghost came = outcome(loaded);
    assert(load_may_be(file@, bytes@, came));
    match loaded {
        Ok(picture) => {
            let picked = Picked::Loaded(Box::new(picture));
            assert(picked.deep_view() == pick_of(came));
            picked
        },
        Err(reason) => Picked::Failed(reason),
    }
}

/// A dialog waiting for the musician.
#[derive(Debug, Clone, Copy, PartialEq, Eq, Structural)]
pub struct Pick {
    /// The dialog has come to something.
    pub done: bool,
}

impl Pick {
    /// What one look yields: what came back, or a cancelled dialog where
    /// nothing ever will, and nothing once the dialog has come to something.
    pub open spec fn yields(self, received: Received<Picked>) -> Option<Picked> {
        if self.done {
            None
        } else {
            match received {
                Received::Value(picked) => Some(picked),
                Received::Empty => None,
                Received::Disconnected => Some(Picked::Cancelled),
            }
        }
    }

    /// A dialog that has just opened.
    pub fn new() -> (pick: Pick)
        ensures
            pick == (Pick { done: false }),
    {
        Pick { done: false }
    }

    /// Takes in one look at the dialog, which yields at most once. A thread
    /// that died without sending reads as a cancelled dialog, so the row never
    /// waits forever.
    pub fn poll(&mut self, received: Received<Picked>) -> (picked: Option<Picked>)
        ensures
            picked == old(self).yields(received),
            old(self).done || received is Empty ==> picked is None,
            !old(self).done && received is Disconnected ==> picked == Some(Picked::Cancelled),
            !old(self).done ==> (received matches Received::Value(value) ==> picked == Some(value)),
            final(self).done == (old(self).done || picked is Some),
    {
        if self.done {
            return None;
        }
        let picked = match received {
            Received::Value(picked) => Some(picked),
            Received::Empty => None,
            Received::Disconnected => Some(Picked::Cancelled),
        };
        self.done = picked.is_some();
        picked
    }
}

/// The dialog after a run of looks.
pub open spec fn looked_at(pick: Pick, looks: Seq<Received<Picked>>) -> Pick
    decreases looks.len(),
{
    if looks.len() == 0 {
        pick
    } else {
        let before = looked_at(pick, looks.drop_last());
        Pick { done: before.done || before.yields(looks.last()) is Some }
    }
}

/// How many of a run of looks yield.
pub open spec fn yielded(pick: Pick, looks: Seq<Received<Picked>>) -> nat
    decreases looks.len(),
{
    if looks.len() == 0 {
        0
    } else {
        let front = looks.drop_last();
        yielded(pick, front) + if looked_at(pick, front).yields(looks.last()) is Some {
            1nat
        } else {
            0
        }
    }
}

/// A pick yields at most once, whatever the looks find, and it does yield once
/// one of them finds anything but a dialog that is still open.
pub proof fn a_pick_yields_at_most_once(pick: Pick, looks: Seq<Received<Picked>>)
    requires
        !pick.done,
    ensures
        yielded(pick, looks) == if exists|i: int|
            0 <= i < looks.len() && (#[trigger] looks[i]) !is Empty {
            1nat
        } else {
            0
        },
        looked_at(pick, looks).done == (yielded(pick, looks) == 1),
    decreases looks.len(),
{
    if looks.len() > 0 {
        let front = looks.drop_last();
        a_pick_yields_at_most_once(pick, front);
        if exists|i: int| 0 <= i < front.len() && (#[trigger] front[i]) !is Empty {
            let i = choose|i: int| 0 <= i < front.len() && (#[trigger] front[i]) !is Empty;
            assert(looks[i] !is Empty);
        } else if looks.last() !is Empty {
            assert(looks[looks.len() - 1] !is Empty);
        } else {
            assert forall|i: int| 0 <= i < looks.len() implies (#[trigger] looks[i]) is Empty by {
                if i < front.len() {
                    assert(front[i] is Empty);
                }
            }
        }
    }
}

/// What becomes of a pick: nothing where nothing was chosen, the reason where
/// the file could not be read or is no picture, and otherwise the picture that
/// was loaded, under the name of the file it came from.
pub proof fn a_pick_is_what_was_chosen(chosen: Option<Chosen>, picked: PickedModel)
    requires
        pick_may_be(chosen, picked),
    ensures
        chosen is None <==> picked is Cancelled,
        chosen matches Some(c) ==> match c.bytes {
            Err(reason) => picked == PickedModel::Failed(
                c.file@ + " could not be read: "@ + reason@,
            ),
            Ok(bytes) => match picked {
                PickedModel::Cancelled => false,
                PickedModel::Loaded(picture) => load_may_be(
                    c.file@,
                    bytes@,
                    Ok::<PictureModel, Seq<char>>(picture),
                ) && picture.file == c.file@,
                PickedModel::Failed(reason) => load_may_be(
                    c.file@,
                    bytes@,
                    Err::<PictureModel, Seq<char>>(reason),
                ),
            },
        },
{
    if let Some(c) = chosen {
        if let Ok(bytes) = c.bytes {
            let loaded = choose|loaded: Result<PictureModel, Seq<char>>| #[trigger]
                load_may_be(c.file@, bytes@, loaded) && picked == pick_of(loaded);
            a_loaded_picture_is_the_fitted_one(c.file@, bytes@, loaded);
        }
    }
}

} // verus!
