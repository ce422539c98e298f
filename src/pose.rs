use crate::matrix::{Matd, MatdView};
use vstd::prelude::*;
use vstd::string::*;

verus! {

/// The content of a pose: a rotation matrix and a translation vector.
pub struct PoseView {
    pub rotation: MatdView,
    pub translation: MatdView,
}

impl PoseView {
    /// A 3×3 rotation and a 3×1 translation, each with a full set of entries.
    pub open spec fn wf(self) -> bool {
        &&& self.rotation.wf()
        &&& self.rotation.has_shape(3, 3)
        &&& self.translation.wf()
        &&& self.translation.has_shape(3, 1)
    }
}

/// An estimated pose. It is the only owner of its rotation (3×3) and
/// translation (3×1) matrices: it cannot be cloned, the accessors lend the
/// matrices for no longer than the pose is borrowed, and the buffers are
/// released once, when the pose (or whoever took its parts) goes away.
pub struct Pose {
    rotation: Matd,
    translation: Matd,
}

impl View for Pose {
    type V = PoseView;

    closed spec fn view(&self) -> PoseView {
        PoseView { rotation: self.rotation@, translation: self.translation@ }
    }
}

impl Pose {
    #[verifier::type_invariant]
    spec fn inv(self) -> bool {
        self@.wf()
    }

    /// Takes ownership of a rotation and a translation matrix; `None`
    /// unless the rotation is 3×3 and the translation 3×1.
    pub fn new(rotation: Matd, translation: Matd) -> (r: Option<Pose>)
        ensures
            r is Some <==> rotation@.has_shape(3, 3) && translation@.has_shape(3, 1),
            r matches Some(p) ==> p@ == (PoseView { rotation: rotation@, translation: translation@ }),
    {
        if rotation.nrows() == 3 && rotation.ncols() == 3 && translation.nrows() == 3
            && translation.ncols() == 1 {
            Some(Pose { rotation, translation })
        } else {
            None
        }
    }

    /// Lends the 3×3 rotation matrix. Every call lends the same matrix,
    /// with the same entries.
    pub fn rotation(&self) -> (r: &Matd)
        ensures
            r@ == self@.rotation,
            r@.has_shape(3, 3),
            self@.wf(),
    {
        proof {
            use_type_invariant(self);
        }
        &self.rotation
    }

    /// Lends the 3×1 translation matrix. Every call lends the same matrix,
    /// with the same entries.
    pub fn translation(&self) -> (r: &Matd)
        ensures
            r@ == self@.translation,
            r@.has_shape(3, 1),
            self@.wf(),
    {
        proof {
            use_type_invariant(self);
        }
        &self.translation
    }

    /// Gives up the pose and hands its two matrices, unchanged, to the
    /// caller, who becomes their only owner.
    pub fn into_parts(self) -> (r: (Matd, Matd))
        ensures
            r.0@ == self@.rotation,
            r.1@ == self@.translation,
            self@.wf(),
    {
        proof {
            use_type_invariant(&self);
        }
        let Pose { rotation, translation } = self;
        (rotation, translation)
    }
}

/// The textual form of a pose, given the textual forms of its rotation and
/// translation: `Pose { rotation: <rotation>, translation: <translation> }`.
pub open spec fn pose_debug_spec(rotation: Seq<char>, translation: Seq<char>) -> Seq<char> {
    "Pose { rotation: "@ + rotation + ", translation: "@ + translation + " }"@
}

/// Builds the textual form of a pose from the textual forms of its matrices.
pub fn pose_debug_text(rotation: &str, translation: &str) -> (r: String)
    ensures
        r@ == pose_debug_spec(rotation@, translation@),
{
    let mut text = String::from_str("Pose { rotation: ");
    text.append(rotation);
    text.append(", translation: ");
    text.append(translation);
    text.append(" }");
    text
}

/// `word` stands in `text` starting at position `at`.
pub open spec fn occurs_at(text: Seq<char>, word: Seq<char>, at: int) -> bool {
    &&& 0 <= at
    &&& at + word.len() <= text.len()
    &&& text.subrange(at, at + word.len()) == word
}

/// The textual form of a pose opens with the name `Pose`, and holds the
/// label `rotation` followed by the rotation's text, then the label
/// `translation` followed by the translation's text.
pub proof fn lemma_debug_text_names_fields(rotation: Seq<char>, translation: Seq<char>)
    ensures
        occurs_at(pose_debug_spec(rotation, translation), "Pose"@, 0),
        occurs_at(pose_debug_spec(rotation, translation), "rotation"@, 7),
        occurs_at(pose_debug_spec(rotation, translation), rotation, 17),
        occurs_at(pose_debug_spec(rotation, translation), "translation"@, 19 + rotation.len() as int),
        occurs_at(pose_debug_spec(rotation, translation), translation, 32 + rotation.len() as int),
{
    reveal_strlit("Pose { rotation: ");
    reveal_strlit(", translation: ");
    reveal_strlit(" }");
    reveal_strlit("Pose");
    reveal_strlit("rotation");
    reveal_strlit("translation");
    let text = pose_debug_spec(rotation, translation);
    let r = rotation.len() as int;
    assert(text.subrange(0, 4) =~= "Pose"@);
    assert(text.subrange(7, 15) =~= "rotation"@);
    assert(text.subrange(17, 17 + r) =~= rotation);
    assert(text.subrange(19 + r, 30 + r) =~= "translation"@);
    assert(text.subrange(32 + r, 32 + r + translation.len()) =~= translation);
}

} // verus!
