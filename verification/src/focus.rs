//! The focus ring: a closed set of focus states, walked forwards and
//! backwards with wraparound.

use vstd::prelude::*;

verus! {

/// A state that owns a focus which can be moved forwards and backwards.
pub trait Focusable: Sized {
    /// The state that `next` leaves behind.
    spec fn next_focus(self) -> Self;

    /// The state that `previous` leaves behind.
    spec fn previous_focus(self) -> Self;

    /// Moves the focus one step forwards.
    fn next(&mut self)
        ensures
            *final(self) == old(self).next_focus(),
    ;

    /// Moves the focus one step backwards.
    fn previous(&mut self)
        ensures
            *final(self) == old(self).previous_focus(),
    ;

    /// A step forwards and a step backwards undo each other, in either
    /// order.
    proof fn lemma_steps_undo(self)
        ensures
            self.next_focus().previous_focus() == self,
            self.previous_focus().next_focus() == self,
    ;
}

/// Which part of an artist window receives selection commands.
///
/// The three states form a ring in the order in which they are declared.
#[derive(Copy, Clone, Debug, PartialEq, Eq, Structural)]
pub enum ArtistFocusState {
    TopTracks,
    Albums,
    RelatedArtists,
}

/// Number of states in the ring of `ArtistFocusState`.
pub const RING_LEN: usize = 3;

impl ArtistFocusState {
    /// Position of a focus in the ring.
    pub open spec fn spec_position(self) -> int {
        match self {
            ArtistFocusState::TopTracks => 0,
            ArtistFocusState::Albums => 1,
            ArtistFocusState::RelatedArtists => 2,
        }
    }

    /// The focus at position `i` of the ring, counted round the ring.
    pub open spec fn spec_at(i: int) -> ArtistFocusState {
        if i % 3 == 0 {
            ArtistFocusState::TopTracks
        } else if i % 3 == 1 {
            ArtistFocusState::Albums
        } else {
            ArtistFocusState::RelatedArtists
        }
    }

    /// Position of a focus in the ring.
    pub fn position(self) -> (i: usize)
        ensures
            i == self.spec_position(),
            i < RING_LEN,
    {
        match self {
            ArtistFocusState::TopTracks => 0,
            ArtistFocusState::Albums => 1,
            ArtistFocusState::RelatedArtists => 2,
        }
    }

    /// The focus at position `i` of the ring, counted round the ring: the
    /// position after the last one is the first again.
    pub fn at(i: usize) -> (focus: ArtistFocusState)
        ensures
            focus == Self::spec_at(i as int),
            focus.spec_position() == i % RING_LEN,
    {
        let place: usize = i % RING_LEN;
        if place == 0 {
            ArtistFocusState::TopTracks
        } else if place == 1 {
            ArtistFocusState::Albums
        } else {
            ArtistFocusState::RelatedArtists
        }
    }
}

impl Focusable for ArtistFocusState {
    /// The focus one position further round the ring.
    open spec fn next_focus(self) -> Self {
        Self::spec_at(self.spec_position() + 1)
    }

    /// The focus one position back round the ring.
    open spec fn previous_focus(self) -> Self {
        Self::spec_at(self.spec_position() + RING_LEN - 1)
    }

    fn next(&mut self) {
        *self = Self::at(self.position() + 1);
    }

    fn previous(&mut self) {
        *self = Self::at(self.position() + RING_LEN - 1);
    }

    proof fn lemma_steps_undo(self) {
    }
}

/// A focus stands at its own position, and positions are counted round the
/// ring.
pub proof fn lemma_ring_positions(focus: ArtistFocusState, i: int)
    ensures
        ArtistFocusState::spec_at(focus.spec_position()) == focus,
        0 <= focus.spec_position() < RING_LEN,
        ArtistFocusState::spec_at(i).spec_position() == i % (RING_LEN as int),
        ArtistFocusState::spec_at(i + RING_LEN) == ArtistFocusState::spec_at(i),
{
}

/// The ring runs from the top tracks to the albums, from there to the
/// related artists, and from there back to the top tracks.
pub proof fn lemma_ring_order()
    ensures
        ArtistFocusState::TopTracks.next_focus() == ArtistFocusState::Albums,
        ArtistFocusState::Albums.next_focus() == ArtistFocusState::RelatedArtists,
        ArtistFocusState::RelatedArtists.next_focus() == ArtistFocusState::TopTracks,
{
}

/// As many steps forwards as the ring has states lead back to the start,
/// and so do as many steps backwards.
pub proof fn lemma_full_turn(focus: ArtistFocusState)
    ensures
        focus.next_focus().next_focus().next_focus() == focus,
        focus.previous_focus().previous_focus().previous_focus() == focus,
{
}

} // verus!
