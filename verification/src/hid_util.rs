//! Keycode aggregator and mode controller.
//!
//! [`CustomKeycode`] keeps the set of currently asserted output codes in an
//! insertion-ordered table; [`HIDUtil`] looks codes up in the binding table
//! for the active mode, feeds them in and out of that table, detects the
//! mode-switch gesture, and renders report payloads: all six held codes in
//! keyboard mode, the most recently inserted code in media mode.

use vstd::prelude::*;
use vstd::set_lib::lemma_len_subset;

use heapless::FnvIndexMap;

use crate::code_map::code_map_clear;
use crate::code_map::code_map_insert;
use crate::code_map::code_map_key_vec;
use crate::code_map::code_map_keys;
use crate::code_map::code_map_len;
use crate::code_map::code_map_new;
use crate::code_map::code_map_remove;
use crate::code_map::spec_swap_remove_code;
use crate::constants::MEDIAKEY_NONE;
use crate::constants::is_gesture_code;
use crate::constants::spec_gesture_code;
use crate::key_config::KeyConfig;
use crate::key_config::KeyMode;
use crate::key_config::spec_code_for;
use crate::reports::Report;
use crate::reports::gen_keyboard_report_array;
use crate::reports::gen_media_report;
use crate::reports::keyboard_report_matches;
use crate::reports::spec_render_keycodes;

verus! {

/// The currently asserted output codes, in insertion order.
pub struct CustomKeycode {
    index_map: FnvIndexMap<u8, bool, 8>,
}

impl View for CustomKeycode {
    type V = Seq<u8>;

    closed spec fn view(&self) -> Seq<u8> {
        code_map_keys(self.index_map)
    }
}

/// Insertion into the code table: idempotent, appending a new code last.
pub open spec fn spec_insert_code(codes: Seq<u8>, c: u8) -> Seq<u8> {
    if codes.contains(c) {
        codes
    } else {
        codes.push(c)
    }
}

impl CustomKeycode {
    pub fn new() -> (c: CustomKeycode)
        ensures
            c@ == Seq::<u8>::empty(),
    {
        CustomKeycode { index_map: code_map_new() }
    }

    /// Assert `code`: a code already present is not duplicated.  The table
    /// must have room for one more code unless it already holds this one.
    pub fn insert_code(&mut self, code: u8)
        requires
            old(self)@.len() < 8 || old(self)@.contains(code),
        ensures
            final(self)@ == spec_insert_code(old(self)@, code),
            final(self)@.no_duplicates(),
    {
        let _ = code_map_insert(&mut self.index_map, code, true);
    }

    /// Withdraw `code`; absent codes are left alone.  The vacated slot is
    /// filled by the last code.
    pub fn remove_code(&mut self, code: u8)
        ensures
            final(self)@ == spec_swap_remove_code(old(self)@, code),
            final(self)@.no_duplicates(),
    {
        let _ = code_map_remove(&mut self.index_map, code);
    }

    /// Drop every code.
    pub fn clear(&mut self)
        ensures
            final(self)@ == Seq::<u8>::empty(),
    {
        code_map_clear(&mut self.index_map);
    }

    /// Number of codes currently asserted.
    pub fn len(&self) -> (n: usize)
        ensures
            n == self@.len(),
    {
        code_map_len(&self.index_map)
    }

    /// The asserted codes in order, as a vector.
    pub fn code_vec(&self) -> (keys: Vec<u8>)
        ensures
            keys@ == self@,
    {
        code_map_key_vec(&self.index_map)
    }

    /// The six keycode slots of the boot-keyboard report: the asserted codes
    /// in order, right-padded with the no-key sentinel; codes beyond the
    /// sixth are silently truncated.
    pub fn get_keycode_array(&self) -> (arr: [u8; 6])
        ensures
            arr@ == spec_render_keycodes(self@),
    {
        let keys = code_map_key_vec(&self.index_map);
        let mut arr: [u8; 6] = [0; 6];
        let mut i: usize = 0;
        while i < 6
            invariant
                0 <= i <= 6,
                keys@ == self@,
                arr@.len() == 6,
                forall|j: int|
                    0 <= j < i ==> arr@[j] == (if j < keys@.len() {
                        keys@[j]
                    } else {
                        0u8
                    }),
                forall|j: int| i <= j < 6 ==> arr@[j] == 0,
            decreases 6 - i,
        {
            if i < keys.len() {
                arr[i] = keys[i];
            }
            i += 1;
        }
        proof {
            assert(arr@ =~= spec_render_keycodes(self@));
        }
        arr
    }
}

impl Default for CustomKeycode {
    fn default() -> (c: CustomKeycode)
        ensures
            c@ == Seq::<u8>::empty(),
    {
        CustomKeycode::new()
    }
}

/// Ghost state of the aggregator: the asserted codes in insertion order and
/// the active output mode.
pub struct AggView {
    pub codes: Seq<u8>,
    pub mode: KeyMode,
}

/// Whether every code currently asserted belongs to the gesture union while
/// more than one is present: a single code is never a gesture.
pub open spec fn gesture_detected(codes: Seq<u8>) -> bool {
    codes.len() > 1 && forall|i: int| 0 <= i < codes.len() ==> spec_gesture_code(#[trigger] codes[i])
}

/// The only mode transition: flip to the other mode.
pub open spec fn spec_toggle_mode(m: KeyMode) -> KeyMode {
    match m {
        KeyMode::Keyboard => KeyMode::Media,
        KeyMode::Media => KeyMode::Keyboard,
    }
}

/// Whether `c` is an output code of some key under `mode`.
pub open spec fn mode_has_code(mode: KeyMode, c: u8) -> bool {
    exists|id: KeyConfig| spec_code_for(id, mode) == c
}

/// Aggregator invariant: no code is held twice, and every held code is an
/// output code of some key under the active mode.
pub open spec fn agg_inv(v: AggView) -> bool {
    &&& v.codes.no_duplicates()
    &&& forall|i: int| 0 <= i < v.codes.len() ==> mode_has_code(v.mode, #[trigger] v.codes[i])
}

/// Aggregator state after a key press: the key's code under the active mode
/// is inserted; if that completes the mode-switch gesture the table is
/// cleared and the mode flips, consuming the press.
pub open spec fn spec_push(v: AggView, id: KeyConfig) -> AggView {
    let inserted = spec_insert_code(v.codes, spec_code_for(id, v.mode));
    if gesture_detected(inserted) {
        AggView { codes: Seq::empty(), mode: spec_toggle_mode(v.mode) }
    } else {
        AggView { codes: inserted, mode: v.mode }
    }
}

/// The report a key press must emit from state `v`: on a gesture, the
/// all-clear report of the outgoing mode; otherwise the rendering of the
/// codes now held (keyboard mode) or the most recently inserted code (media
/// mode).
pub open spec fn push_report_matches(v: AggView, id: KeyConfig, r: Report) -> bool {
    let inserted = spec_insert_code(v.codes, spec_code_for(id, v.mode));
    if gesture_detected(inserted) {
        match r {
            Report::Keyboard(k) => v.mode == KeyMode::Keyboard && keyboard_report_matches(
                k,
                Seq::empty(),
            ),
            Report::Media(m) => v.mode == KeyMode::Media && m.usage_id == MEDIAKEY_NONE as u16,
        }
    } else {
        match r {
            Report::Keyboard(k) => v.mode == KeyMode::Keyboard && keyboard_report_matches(
                k,
                inserted,
            ),
            Report::Media(m) => v.mode == KeyMode::Media && m.usage_id == inserted.last() as u16,
        }
    }
}

/// Aggregator state after a key release: the key's code under the active
/// mode is withdrawn; an empty table is left alone.
pub open spec fn spec_release(v: AggView, id: KeyConfig) -> AggView {
    if v.codes.len() == 0 {
        v
    } else {
        AggView {
            codes: spec_swap_remove_code(v.codes, spec_code_for(id, v.mode)),
            mode: v.mode,
        }
    }
}

/// The report a key release must emit from state `v`: nothing when the table
/// was already empty, otherwise the rendering of the remaining codes
/// (keyboard mode) or the idle media report.
pub open spec fn release_report_matches(v: AggView, id: KeyConfig, r: Option<Report>) -> bool {
    if v.codes.len() == 0 {
        r is None
    } else {
        match r {
            Some(Report::Keyboard(k)) => v.mode == KeyMode::Keyboard && keyboard_report_matches(
                k,
                spec_swap_remove_code(v.codes, spec_code_for(id, v.mode)),
            ),
            Some(Report::Media(m)) => v.mode == KeyMode::Media && m.usage_id
                == MEDIAKEY_NONE as u16,
            None => false,
        }
    }
}

/// Aggregator and mode controller: the set of asserted output codes under
/// the active mode.
pub struct HIDUtil {
    pub custom_keycode: CustomKeycode,
    mode: KeyMode,
}

impl View for HIDUtil {
    type V = AggView;

    closed spec fn view(&self) -> AggView {
        AggView { codes: self.custom_keycode@, mode: self.mode }
    }
}

/// The six output codes of the active mode, as a set.
pub open spec fn mode_code_set(mode: KeyMode) -> Set<u8> {
    set![
        spec_code_for(KeyConfig::One, mode),
        spec_code_for(KeyConfig::Two, mode),
        spec_code_for(KeyConfig::Three, mode),
        spec_code_for(KeyConfig::Four, mode),
        spec_code_for(KeyConfig::Five, mode),
        spec_code_for(KeyConfig::Six, mode),
    ]
}

proof fn lemma_mode_code_set(mode: KeyMode)
    ensures
        mode_code_set(mode).finite(),
        mode_code_set(mode).len() <= 6,
        forall|c: u8| mode_has_code(mode, c) ==> mode_code_set(mode).contains(c),
{
    broadcast use vstd::set::group_set_axioms;

    assert forall|c: u8| mode_has_code(mode, c) implies mode_code_set(mode).contains(c) by {
        let id = choose|id: KeyConfig| spec_code_for(id, mode) == c;
        match id {
            KeyConfig::One => assert(mode_code_set(mode).contains(c)),
            KeyConfig::Two => assert(mode_code_set(mode).contains(c)),
            KeyConfig::Three => assert(mode_code_set(mode).contains(c)),
            KeyConfig::Four => assert(mode_code_set(mode).contains(c)),
            KeyConfig::Five => assert(mode_code_set(mode).contains(c)),
            KeyConfig::Six => assert(mode_code_set(mode).contains(c)),
        }
    }
}

/// A well-formed aggregator never holds more than six codes: its codes are
/// pairwise distinct and drawn from the six codes of the active mode.
pub proof fn lemma_codes_bounded(v: AggView)
    requires
        agg_inv(v),
    ensures
        v.codes.len() <= 6,
{
    broadcast use vstd::set::group_set_axioms;

    lemma_mode_code_set(v.mode);
    v.codes.unique_seq_to_set();
    assert forall|c: u8| v.codes.to_set().contains(c) implies mode_code_set(v.mode).contains(
        c,
    ) by {
        assert(v.codes.contains(c));
        let i = choose|i: int| 0 <= i < v.codes.len() && v.codes[i] == c;
        assert(mode_has_code(v.mode, v.codes[i]));
    }
    lemma_len_subset(v.codes.to_set(), mode_code_set(v.mode));
}

/// Withdrawing a code keeps the aggregator invariant: the remaining codes
/// are drawn from the old ones.
proof fn lemma_swap_remove_keeps_inv(v: AggView, c: u8)
    requires
        agg_inv(v),
        v.codes.len() > 0,
    ensures
        agg_inv(AggView { codes: spec_swap_remove_code(v.codes, c), mode: v.mode }),
{
    let after = spec_swap_remove_code(v.codes, c);
    if v.codes.contains(c) {
        let i = v.codes.index_of(c);
        let swapped = v.codes.update(i, v.codes.last());
        assert forall|j: int| 0 <= j < after.len() implies mode_has_code(
            v.mode,
            #[trigger] after[j],
        ) by {
            assert(after[j] == swapped[j]);
            if j == i {
                assert(v.codes.contains(v.codes.last()));
            } else {
                assert(after[j] == v.codes[j]);
            }
        }
        assert(after.no_duplicates()) by {
            assert(forall|j: int, k: int|
                0 <= j < after.len() && 0 <= k < after.len() && j != k ==> after[j] != after[k]);
        }
    }
}

impl HIDUtil {
    /// Aggregator invariant, as a property of the concrete value.
    pub open spec fn wf(&self) -> bool {
        agg_inv(self@)
    }

    pub fn new() -> (h: HIDUtil)
        ensures
            h@.codes == Seq::<u8>::empty(),
            h@.mode == KeyMode::Keyboard,
            h.wf(),
    {
        HIDUtil { custom_keycode: CustomKeycode::new(), mode: KeyMode::Keyboard }
    }

    /// The active output mode.
    pub fn current_mode(&self) -> (m: KeyMode)
        ensures
            m == self@.mode,
    {
        self.mode
    }

    /// The asserted codes in insertion order, as a vector.
    pub fn active_codes(&self) -> (codes: Vec<u8>)
        ensures
            codes@ == self@.codes,
    {
        self.custom_keycode.code_vec()
    }

    /// Whether the codes currently held form the mode-switch gesture: more
    /// than one code, every one of them in the gesture union.  Zero or one
    /// held codes are never a gesture.
    pub fn is_mode_switch_pressed(&self) -> (r: bool)
        ensures
            r == gesture_detected(self@.codes),
            self@.codes.len() <= 1 ==> !r,
    {
        let keys = self.custom_keycode.code_vec();
        if keys.len() <= 1 {
            return false;
        }
        let mut i: usize = 0;
        while i < keys.len()
            invariant
                0 <= i <= keys@.len(),
                keys@ == self@.codes,
                forall|j: int| 0 <= j < i ==> spec_gesture_code(#[trigger] keys@[j]),
            decreases keys@.len() - i,
        {
            if !is_gesture_code(keys[i]) {
                return false;
            }
            i += 1;
        }
        true
    }

    /// Flip the active mode; the held codes are untouched.
    pub fn change_mode(&mut self)
        ensures
            final(self)@.mode == spec_toggle_mode(old(self)@.mode),
            final(self)@.codes == old(self)@.codes,
    {
        match self.mode {
            KeyMode::Keyboard => self.mode = KeyMode::Media,
            KeyMode::Media => self.mode = KeyMode::Keyboard,
        }
    }

    /// Release every held code at once, as on a mode transition.
    pub fn clear_all(&mut self)
        ensures
            final(self)@.codes == Seq::<u8>::empty(),
            final(self)@.mode == old(self)@.mode,
            final(self).wf(),
    {
        self.custom_keycode.clear();
    }

    /// Render the current state for the active mode without changing it:
    /// the six keycode slots in keyboard mode, the most recently inserted
    /// code (or the idle sentinel) in media mode.
    pub fn render(&self) -> (r: Report)
        ensures
            match r {
                Report::Keyboard(k) => self@.mode == KeyMode::Keyboard && keyboard_report_matches(
                    k,
                    self@.codes,
                ),
                Report::Media(m) => self@.mode == KeyMode::Media && m.usage_id == (
                if self@.codes.len() == 0 {
                    MEDIAKEY_NONE as u16
                } else {
                    self@.codes.last() as u16
                }),
            },
    {
        match self.mode {
            KeyMode::Keyboard => Report::Keyboard(
                gen_keyboard_report_array(self.custom_keycode.get_keycode_array()),
            ),
            KeyMode::Media => {
                let keys = self.custom_keycode.code_vec();
                if keys.len() == 0 {
                    Report::Media(gen_media_report(MEDIAKEY_NONE as u16))
                } else {
                    Report::Media(gen_media_report(keys[keys.len() - 1] as u16))
                }
            },
        }
    }

    /// Consume a key press: insert the key's code for the active mode, then
    /// either perform the mode switch (all-clear report to the outgoing
    /// mode, table cleared, mode flipped, press consumed) or report the held
    /// codes to the active mode's endpoint.
    pub fn push_input(&mut self, button_id: KeyConfig) -> (r: Report)
        requires
            old(self).wf(),
        ensures
            final(self).wf(),
            final(self)@ == spec_push(old(self)@, button_id),
            push_report_matches(old(self)@, button_id, r),
    {
        proof {
            lemma_codes_bounded(self@);
        }
        let code = button_id.code_for(self.mode);
        self.custom_keycode.insert_code(code);
        proof {
            assert forall|i: int| 0 <= i < self.custom_keycode@.len() implies mode_has_code(
                self.mode,
                #[trigger] self.custom_keycode@[i],
            ) by {
                if i == self.custom_keycode@.len() - 1
                    && !old(self)@.codes.contains(code) {
                    assert(spec_code_for(button_id, self.mode) == code);
                } else {
                    assert(old(self)@.codes[i] == self.custom_keycode@[i]);
                }
            }
        }
        if self.is_mode_switch_pressed() {
            let report = match self.mode {
                KeyMode::Keyboard => Report::Keyboard(
                    gen_keyboard_report_array(
                        [0, 0, 0, 0, 0, 0],
                    ),
                ),
                KeyMode::Media => Report::Media(gen_media_report(MEDIAKEY_NONE as u16)),
            };
            proof {
                assert(spec_render_keycodes(Seq::<u8>::empty()) =~= seq![
                    0u8,
                    0u8,
                    0u8,
                    0u8,
                    0u8,
                    0u8,
                ]);
                assert(([0u8, 0u8, 0u8, 0u8, 0u8, 0u8])@ =~= spec_render_keycodes(
                    Seq::<u8>::empty(),
                ));
            }
            self.custom_keycode.clear();
            self.change_mode();
            report
        } else {
            self.render()
        }
    }

    /// Consume a key release: withdraw the key's code for the active mode
    /// and report the remaining state; an empty table stays silent.
    pub fn release_input(&mut self, button_id: KeyConfig) -> (r: Option<Report>)
        requires
            old(self).wf(),
        ensures
            final(self).wf(),
            final(self)@ == spec_release(old(self)@, button_id),
            release_report_matches(old(self)@, button_id, r),
    {
        let code = button_id.code_for(self.mode);
        if self.custom_keycode.len() == 0 {
            return None;
        }
        proof {
            lemma_swap_remove_keeps_inv(self@, spec_code_for(button_id, self@.mode));
        }
        self.custom_keycode.remove_code(code);
        match self.mode {
            KeyMode::Keyboard => Some(
                Report::Keyboard(gen_keyboard_report_array(self.custom_keycode.get_keycode_array())),
            ),
            KeyMode::Media => Some(Report::Media(gen_media_report(MEDIAKEY_NONE as u16))),
        }
    }
}

/// Aggregator idempotence: pressing the same key twice in a row, when the
/// first press does not complete the mode-switch gesture, leaves the
/// aggregator exactly where the first press put it.
pub proof fn lemma_push_idempotent(v: AggView, id: KeyConfig)
    requires
        !gesture_detected(spec_insert_code(v.codes, spec_code_for(id, v.mode))),
    ensures
        spec_push(spec_push(v, id), id) == spec_push(v, id),
{
    let c = spec_code_for(id, v.mode);
    let v1 = spec_push(v, id);
    if !v.codes.contains(c) {
        assert(v.codes.push(c)[v.codes.len() as int] == c);
    }
    assert(v1.codes.contains(c));
    assert(spec_insert_code(v1.codes, c) == v1.codes);
}

/// Mode-gesture atomicity: from an empty aggregator, pressing two keys
/// whose (distinct) codes both belong to the gesture union leaves the mode
/// untouched on the first press, toggles it exactly once on the second, and
/// leaves the table empty.
pub proof fn lemma_gesture_toggles_once(v: AggView, id1: KeyConfig, id2: KeyConfig)
    requires
        v.codes.len() == 0,
        spec_gesture_code(spec_code_for(id1, v.mode)),
        spec_gesture_code(spec_code_for(id2, v.mode)),
        spec_code_for(id1, v.mode) != spec_code_for(id2, v.mode),
    ensures
        spec_push(v, id1).mode == v.mode,
        spec_push(spec_push(v, id1), id2).mode == spec_toggle_mode(v.mode),
        spec_push(spec_push(v, id1), id2).codes == Seq::<u8>::empty(),
{
    let c1 = spec_code_for(id1, v.mode);
    let c2 = spec_code_for(id2, v.mode);
    let s1 = v.codes.push(c1);
    assert(s1[0] == c1);
    assert(!gesture_detected(s1));
    let v1 = spec_push(v, id1);
    assert(v1.codes == s1);
    assert(!s1.contains(c2));
    let s2 = s1.push(c2);
    assert(s2[0] == c1 && s2[1] == c2);
    assert(gesture_detected(s2));
}

/// A two-key chord one of whose codes falls outside the gesture union never
/// toggles the mode.
pub proof fn lemma_non_gesture_keeps_mode(v: AggView, id1: KeyConfig, id2: KeyConfig)
    requires
        v.codes.len() == 0,
        !spec_gesture_code(spec_code_for(id1, v.mode)) || !spec_gesture_code(
            spec_code_for(id2, v.mode),
        ),
    ensures
        spec_push(v, id1).mode == v.mode,
        spec_push(spec_push(v, id1), id2).mode == v.mode,
{
    let c1 = spec_code_for(id1, v.mode);
    let c2 = spec_code_for(id2, v.mode);
    let s1 = v.codes.push(c1);
    assert(s1[0] == c1);
    assert(!gesture_detected(s1));
    let v1 = spec_push(v, id1);
    assert(v1.codes == s1);
    let s2 = spec_insert_code(s1, c2);
    if s1.contains(c2) {
        assert(!gesture_detected(s2));
    } else {
        assert(s2[0] == c1 && s2[1] == c2);
        assert(!gesture_detected(s2));
    }
}

impl Default for HIDUtil {
    fn default() -> (h: HIDUtil)
        ensures
            h@.codes == Seq::<u8>::empty(),
            h@.mode == KeyMode::Keyboard,
            h.wf(),
    {
        HIDUtil::new()
    }
}

} // verus!
