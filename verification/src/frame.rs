//! The per-frame painting protocol: the order of texture uploads, clear,
//! draw, capture and texture frees within one paint call, and the FIFO queue
//! of captured frames that is drained into screenshot events.
//!
//! The GPU work itself (uploading a texture, clearing, drawing, reading the
//! framebuffer back) is performed by the unverified shell around this crate;
//! the shell executes the steps of a verified [`frame_plan`] in order and
//! hands captured images back to the verified [`FramePainter`].

use std::sync::Arc;
use vstd::prelude::*;

verus! {

/// A texture identifier, as the library models it.
pub type TextureId = u64;

/// A caller-supplied opaque token attached to a capture request and echoed
/// back on delivery.
pub type CaptureToken = u64;

/// One step of a paint call, to be executed by the shell against the host
/// graphics context.
#[derive(Clone, Copy, PartialEq, Eq, Structural, Debug)]
pub enum FrameStep {
    /// Upload the texture with this id from the frame's texture delta.
    UploadTexture(TextureId),
    /// Clear the framebuffer to the frame's clear color.
    Clear,
    /// Draw the frame's primitive batch.
    Draw,
    /// Read the just-rendered framebuffer back and enqueue it with the
    /// frame's capture tokens.
    CaptureFrame,
    /// Release the texture with this id.
    FreeTexture(TextureId),
}

/// The upload steps of a frame, one per inserted texture, in delta order.
pub open spec fn upload_steps(set_ids: Seq<TextureId>) -> Seq<FrameStep> {
    set_ids.map(|i: int, id: TextureId| FrameStep::UploadTexture(id))
}

/// The free steps of a frame, one per removed texture, in delta order.
pub open spec fn free_steps(free_ids: Seq<TextureId>) -> Seq<FrameStep> {
    free_ids.map(|i: int, id: TextureId| FrameStep::FreeTexture(id))
}

/// The exact steps of one paint call: every texture insertion first, then
/// clear, then draw, then — only when capture tokens were supplied — one
/// framebuffer capture, and every texture removal last.
pub open spec fn frame_plan(
    set_ids: Seq<TextureId>,
    free_ids: Seq<TextureId>,
    capture: Seq<CaptureToken>,
) -> Seq<FrameStep> {
    upload_steps(set_ids) + seq![FrameStep::Clear, FrameStep::Draw] + (if capture.len() > 0 {
        seq![FrameStep::CaptureFrame]
    } else {
        Seq::<FrameStep>::empty()
    }) + free_steps(free_ids)
}

/// Lay out the steps of one paint call: `set_ids` are the texture ids of the
/// delta's insertion set in iteration order, `free_ids` the delta's removal
/// set, and `capture` the frame's capture tokens.
pub fn plan_frame(
    set_ids: &Vec<TextureId>,
    free_ids: &Vec<TextureId>,
    capture: &Vec<CaptureToken>,
) -> (plan: Vec<FrameStep>)
    ensures
        plan@ == frame_plan(set_ids@, free_ids@, capture@),
{
    let mut plan: Vec<FrameStep> = Vec::new();
    let mut i: usize = 0;
    while i < set_ids.len()
        invariant
            i <= set_ids@.len(),
            plan@ == upload_steps(set_ids@.take(i as int)),
        decreases set_ids@.len() - i,
    {
        plan.push(FrameStep::UploadTexture(set_ids[i]));
        proof {
            assert(plan@ =~= upload_steps(set_ids@.take(i + 1)));
        }
        i += 1;
    }
    proof {
        assert(set_ids@.take(set_ids@.len() as int) =~= set_ids@);
    }
    plan.push(FrameStep::Clear);
    plan.push(FrameStep::Draw);
    if capture.len() > 0 {
        plan.push(FrameStep::CaptureFrame);
    }
    let ghost mid = plan@;
    let mut j: usize = 0;
    while j < free_ids.len()
        invariant
            j <= free_ids@.len(),
            plan@ == mid + free_steps(free_ids@.take(j as int)),
        decreases free_ids@.len() - j,
    {
        plan.push(FrameStep::FreeTexture(free_ids[j]));
        proof {
            assert(plan@ =~= mid + free_steps(free_ids@.take(j + 1)));
        }
        j += 1;
    }
    proof {
        assert(free_ids@.take(free_ids@.len() as int) =~= free_ids@);
        assert(plan@ =~= frame_plan(set_ids@, free_ids@, capture@));
    }
    plan
}

/// The set of texture ids in a sequence.
pub open spec fn ids_set(ids: Seq<TextureId>) -> Set<TextureId>
    decreases ids.len(),
{
    if ids.len() == 0 {
        Set::empty()
    } else {
        ids_set(ids.skip(1)).insert(ids[0])
    }
}

/// How one step changes the set of textures the executor holds.
pub open spec fn apply_step(textures: Set<TextureId>, step: FrameStep) -> Set<TextureId> {
    match step {
        FrameStep::UploadTexture(id) => textures.insert(id),
        FrameStep::FreeTexture(id) => textures.remove(id),
        _ => textures,
    }
}

/// The set of textures the executor holds after running the steps in order.
pub open spec fn apply_steps(textures: Set<TextureId>, steps: Seq<FrameStep>) -> Set<TextureId>
    decreases steps.len(),
{
    if steps.len() == 0 {
        textures
    } else {
        apply_steps(apply_step(textures, steps[0]), steps.skip(1))
    }
}

/// Running concatenated steps is running the first part, then the second.
proof fn lemma_apply_steps_concat(textures: Set<TextureId>, a: Seq<FrameStep>, b: Seq<FrameStep>)
    ensures
        apply_steps(textures, a + b) == apply_steps(apply_steps(textures, a), b),
    decreases a.len(),
{
    if a.len() == 0 {
        assert(a + b =~= b);
    } else {
        assert((a + b).skip(1) =~= a.skip(1) + b);
        lemma_apply_steps_concat(apply_step(textures, a[0]), a.skip(1), b);
    }
}

/// The upload steps add exactly the inserted ids.
proof fn lemma_apply_uploads(textures: Set<TextureId>, set_ids: Seq<TextureId>)
    ensures
        apply_steps(textures, upload_steps(set_ids)) == textures.union(ids_set(set_ids)),
    decreases set_ids.len(),
{
    if set_ids.len() == 0 {
        assert(textures.union(ids_set(set_ids)) =~= textures);
    } else {
        assert(upload_steps(set_ids).skip(1) =~= upload_steps(set_ids.skip(1)));
        lemma_apply_uploads(textures.insert(set_ids[0]), set_ids.skip(1));
        assert(textures.insert(set_ids[0]).union(ids_set(set_ids.skip(1))) =~= textures.union(
            ids_set(set_ids),
        ));
    }
}

/// The free steps remove exactly the freed ids.
proof fn lemma_apply_frees(textures: Set<TextureId>, free_ids: Seq<TextureId>)
    ensures
        apply_steps(textures, free_steps(free_ids)) == textures.difference(ids_set(free_ids)),
    decreases free_ids.len(),
{
    if free_ids.len() == 0 {
        assert(textures.difference(ids_set(free_ids)) =~= textures);
    } else {
        assert(free_steps(free_ids).skip(1) =~= free_steps(free_ids.skip(1)));
        lemma_apply_frees(textures.remove(free_ids[0]), free_ids.skip(1));
        assert(textures.remove(free_ids[0]).difference(ids_set(free_ids.skip(1)))
            =~= textures.difference(ids_set(free_ids)));
    }
}

/// Steps that neither upload nor free leave the texture set alone.
proof fn lemma_apply_inert(textures: Set<TextureId>, steps: Seq<FrameStep>)
    requires
        forall|i: int|
            0 <= i < steps.len() ==> !(steps[i] is UploadTexture) && !(steps[i] is FreeTexture),
    ensures
        apply_steps(textures, steps) == textures,
    decreases steps.len(),
{
    if steps.len() > 0 {
        assert(apply_step(textures, steps[0]) == textures);
        lemma_apply_inert(textures, steps.skip(1));
    }
}

/// Law: in a frame plan, the draw step sees every texture inserted by the
/// same call's delta, none of the delta's removals has happened yet, and the
/// removals take effect only once the whole plan has run.
///
/// `textures` is the executor's texture set when the paint call starts; the
/// draw step stands right after the uploads and the clear.
pub proof fn lemma_texture_delta_ordering(
    textures: Set<TextureId>,
    set_ids: Seq<TextureId>,
    free_ids: Seq<TextureId>,
    capture: Seq<CaptureToken>,
)
    ensures
        frame_plan(set_ids, free_ids, capture)[set_ids.len() + 1 as int] == FrameStep::Draw,
        apply_steps(
            textures,
            frame_plan(set_ids, free_ids, capture).take(set_ids.len() + 2 as int),
        ) == textures.union(ids_set(set_ids)),
        apply_steps(textures, frame_plan(set_ids, free_ids, capture)) == textures.union(
            ids_set(set_ids),
        ).difference(ids_set(free_ids)),
{
    let plan = frame_plan(set_ids, free_ids, capture);
    let head = upload_steps(set_ids) + seq![FrameStep::Clear, FrameStep::Draw];
    let cap = if capture.len() > 0 {
        seq![FrameStep::CaptureFrame]
    } else {
        Seq::<FrameStep>::empty()
    };
    assert(plan.take(set_ids.len() + 2 as int) =~= head);
    assert(head =~= upload_steps(set_ids) + seq![FrameStep::Clear, FrameStep::Draw]);
    lemma_apply_steps_concat(textures, upload_steps(set_ids), seq![FrameStep::Clear, FrameStep::Draw]);
    lemma_apply_uploads(textures, set_ids);
    let after_uploads = textures.union(ids_set(set_ids));
    lemma_apply_inert(after_uploads, seq![FrameStep::Clear, FrameStep::Draw]);
    assert(plan =~= head + (cap + free_steps(free_ids)));
    lemma_apply_steps_concat(textures, head, cap + free_steps(free_ids));
    lemma_apply_steps_concat(after_uploads, cap, free_steps(free_ids));
    lemma_apply_inert(after_uploads, cap);
    lemma_apply_frees(after_uploads, free_ids);
}

/// Law: a paint call with empty capture tokens plans no framebuffer capture,
/// so nothing can be appended to the screenshot queue on its account.
pub proof fn lemma_empty_capture_no_readback(
    set_ids: Seq<TextureId>,
    free_ids: Seq<TextureId>,
    capture: Seq<CaptureToken>,
)
    requires
        capture.len() == 0,
    ensures
        forall|i: int|
            0 <= i < frame_plan(set_ids, free_ids, capture).len() ==> frame_plan(
                set_ids,
                free_ids,
                capture,
            )[i] != FrameStep::CaptureFrame,
{
    let plan = frame_plan(set_ids, free_ids, capture);
    assert forall|i: int| 0 <= i < plan.len() implies plan[i] != FrameStep::CaptureFrame by {
        let n = set_ids.len() as int;
        if i < n {
            assert(plan[i] == upload_steps(set_ids)[i]);
        } else if i < n + 2 {
        } else {
            assert(plan[i] == free_steps(free_ids)[i - n - 2]);
        }
    }
}

/// Law: a paint call with capture tokens plans exactly one framebuffer
/// capture, however many tokens were supplied, and it stands right after the
/// draw step.
pub proof fn lemma_capture_once_after_draw(
    set_ids: Seq<TextureId>,
    free_ids: Seq<TextureId>,
    capture: Seq<CaptureToken>,
)
    requires
        capture.len() > 0,
    ensures
        frame_plan(set_ids, free_ids, capture)[set_ids.len() + 2 as int] == FrameStep::CaptureFrame,
        forall|i: int|
            0 <= i < frame_plan(set_ids, free_ids, capture).len() && i != set_ids.len() + 2
                ==> frame_plan(set_ids, free_ids, capture)[i] != FrameStep::CaptureFrame,
{
    let plan = frame_plan(set_ids, free_ids, capture);
    let n = set_ids.len() as int;
    assert forall|i: int|
        0 <= i < plan.len() && i != n + 2 implies plan[i] != FrameStep::CaptureFrame by {
        if i < n {
            assert(plan[i] == upload_steps(set_ids)[i]);
        } else if i < n + 2 {
        } else {
            assert(plan[i] == free_steps(free_ids)[i - n - 3]);
        }
    }
}

/// A captured frame: plain RGBA pixel data, four bytes per pixel.
pub struct FrameImage {
    /// Width in pixels.
    pub width: u32,
    /// Height in pixels.
    pub height: u32,
    /// The pixel bytes, row by row.
    pub rgba: Vec<u8>,
}

impl FrameImage {
    /// The pixel buffer holds exactly four bytes per pixel.
    pub open spec fn wf(self) -> bool {
        self.rgba@.len() == 4 * self.width * self.height
    }

    /// Wrap a framebuffer readback: `Some` exactly when the buffer length
    /// matches the dimensions.
    pub fn new(width: u32, height: u32, rgba: Vec<u8>) -> (r: Option<FrameImage>)
        ensures
            match r {
                Some(img) => img.wf() && img.width == width && img.height == height && img.rgba@
                    == rgba@,
                None => rgba@.len() != 4 * width * height,
            },
    {
        proof {
            let w = width as u128;
            let h = height as u128;
            assert(4 * w * h < 0x400_0000_0000_0000_0000u128) by (nonlinear_arith)
                requires
                    w < 0x1_0000_0000,
                    h < 0x1_0000_0000,
            ;
        }
        let expected: u128 = 4u128 * (width as u128) * (height as u128);
        if (rgba.len() as u128) == expected {
            Some(FrameImage { width, height, rgba })
        } else {
            None
        }
    }
}

/// One captured frame waiting for delivery: the rendered image and the
/// capture tokens of the paint call that produced it.
pub struct PendingScreenshot {
    /// The frame as it was read back.
    pub image: FrameImage,
    /// The call's capture tokens; never empty.
    pub tokens: Vec<CaptureToken>,
}

/// The viewport identifier screenshot events are delivered under.
pub const ROOT_VIEWPORT: u64 = 0;

/// A screenshot-ready event: one capture token together with a shared
/// handle to the rendered frame it was taken from.
pub struct ScreenshotEvent {
    /// The viewport the frame belongs to.
    pub viewport: u64,
    /// The rendered frame, shared between the events of one capture.
    pub image: Arc<FrameImage>,
    /// The echoed capture token.
    pub token: CaptureToken,
}

/// The deliveries one pending screenshot expands to: one per token, in token
/// order, all carrying the entry's image.
pub open spec fn entry_events(e: PendingScreenshot) -> Seq<(FrameImage, CaptureToken)> {
    Seq::new(e.tokens@.len(), |i: int| (e.image, e.tokens@[i]))
}

/// The deliveries a whole queue expands to, entry by entry in FIFO order.
pub open spec fn expanded(entries: Seq<PendingScreenshot>) -> Seq<(FrameImage, CaptureToken)>
    decreases entries.len(),
{
    if entries.len() == 0 {
        Seq::empty()
    } else {
        entry_events(entries[0]) + expanded(entries.skip(1))
    }
}

/// The event delivers the expansion pair: the pair's image under the root
/// viewport, with the pair's token.
pub open spec fn event_matches(ev: ScreenshotEvent, x: (FrameImage, CaptureToken)) -> bool {
    &&& ev.image == x.0
    &&& ev.token == x.1
    &&& ev.viewport == ROOT_VIEWPORT
}

/// Law: the expansion of two queues run back to back is the expansion of the
/// first followed by the expansion of the second — draining is FIFO across
/// any sequence of paint calls.
pub proof fn lemma_expanded_concat(a: Seq<PendingScreenshot>, b: Seq<PendingScreenshot>)
    ensures
        expanded(a + b) == expanded(a) + expanded(b),
    decreases a.len(),
{
    if a.len() == 0 {
        assert(a + b =~= b);
        assert(expanded(a) + expanded(b) =~= expanded(b));
    } else {
        assert((a + b).skip(1) =~= a.skip(1) + b);
        lemma_expanded_concat(a.skip(1), b);
        assert(expanded(a + b) =~= expanded(a) + expanded(b));
    }
}

/// Law: one capture with tokens `[t1, t2]` expands to exactly two
/// deliveries, in that token order, both of the same image.
pub proof fn lemma_two_tokens_two_events(e: PendingScreenshot, t1: CaptureToken, t2: CaptureToken)
    requires
        e.tokens@ == seq![t1, t2],
    ensures
        expanded(seq![e]) == seq![(e.image, t1), (e.image, t2)],
{
    assert(seq![e].skip(1) =~= Seq::<PendingScreenshot>::empty());
    assert(expanded(seq![e].skip(1)) == Seq::<(FrameImage, CaptureToken)>::empty());
    assert(entry_events(e) =~= seq![(e.image, t1), (e.image, t2)]);
    assert(expanded(seq![e]) =~= seq![(e.image, t1), (e.image, t2)]);
}

/// Relies on `Clone` for `std::sync::Arc`: a clone is a new handle to the
/// same shared allocation, equal to the handle it was cloned from.
#[verifier::external_body]
fn share_image(image: &Arc<FrameImage>) -> (r: Arc<FrameImage>)
    ensures
        r == *image,
{
    Arc::clone(image)
}

/// Append one screenshot event per token, all sharing one image.
fn push_entry_events(
    events: &mut Vec<ScreenshotEvent>,
    image: &Arc<FrameImage>,
    tokens: &Vec<CaptureToken>,
)
    ensures
        final(events)@.len() == old(events)@.len() + tokens@.len(),
        forall|i: int| 0 <= i < old(events)@.len() ==> final(events)@[i] == old(events)@[i],
        forall|k: int|
            0 <= k < tokens@.len() ==> (#[trigger] final(events)@[old(events)@.len() + k]).image
                == *image && final(events)@[old(events)@.len() + k].token == tokens@[k]
                && final(events)@[old(events)@.len() + k].viewport == ROOT_VIEWPORT,
{
    let ghost ev0 = events@;
    let mut t: usize = 0;
    while t < tokens.len()
        invariant
            t <= tokens@.len(),
            events@.len() == ev0.len() + t,
            forall|i: int| 0 <= i < ev0.len() ==> events@[i] == ev0[i],
            forall|k: int|
                0 <= k < t ==> (#[trigger] events@[ev0.len() + k]).image == *image && events@[
                    ev0.len() + k
                ].token == tokens@[k] && events@[ev0.len() + k].viewport == ROOT_VIEWPORT,
        decreases tokens@.len() - t,
    {
        let shared = share_image(image);
        let token = tokens[t];
        let ghost before = events@;
        let ev = ScreenshotEvent { viewport: ROOT_VIEWPORT, image: shared, token };
        events.push(ev);
        proof {
            assert(events@[ev0.len() + t] == ev);
            assert(ev.image == *image);
            assert(ev.token == tokens@[t as int]);
            assert(ev.viewport == ROOT_VIEWPORT);
            assert forall|k: int|
                0 <= k < t + 1 implies (#[trigger] events@[ev0.len() + k]).image == *image
                && events@[ev0.len() + k].token == tokens@[k] && events@[ev0.len() + k].viewport
                == ROOT_VIEWPORT by {
                if k < t {
                    assert(events@[ev0.len() + k] == before[ev0.len() + k]);
                    assert(before[ev0.len() + k].token == tokens@[k]);
                } else {
                    assert(events@[ev0.len() + k] == ev);
                }
            }
        }
        t += 1;
    }
}

/// The painter's protocol state: the FIFO queue of captured frames, the
/// executor's constant maximum texture side, and whether the painter is
/// still live (not yet destroyed).
pub struct FramePainter {
    /// Captured frames not yet drained, oldest first.
    pub screenshots: Vec<PendingScreenshot>,
    /// The maximum texture dimension the executor supports; constant for the
    /// context's lifetime.
    pub max_side: usize,
    /// Becomes false on destruction; no operation is valid afterwards.
    pub live: bool,
}

impl FramePainter {
    /// A fresh painter with an empty screenshot queue.
    pub fn new(max_texture_side: usize) -> (p: FramePainter)
        ensures
            p.screenshots@ == Seq::<PendingScreenshot>::empty(),
            p.max_side == max_texture_side,
            p.live,
    {
        let painter = FramePainter { screenshots: Vec::new(), max_side: max_texture_side, live: true };
        proof {
            assert(painter.screenshots@ =~= Seq::<PendingScreenshot>::empty());
        }
        painter
    }

    /// The maximum texture dimension the executor supports.
    pub fn max_texture_side(&self) -> (n: usize)
        requires
            self.live,
        ensures
            n == self.max_side,
    {
        self.max_side
    }

    /// How many captured frames wait to be drained.
    pub fn pending_screenshots(&self) -> (n: usize)
        ensures
            n == self.screenshots@.len(),
    {
        self.screenshots.len()
    }

    /// Enqueue the frame just read back, tagged with the paint call's capture
    /// tokens. Called only for a paint call whose capture token list is
    /// non-empty; such a call appends exactly one entry, whatever the number
    /// of tokens.
    pub fn record_capture(&mut self, image: FrameImage, capture: Vec<CaptureToken>)
        requires
            old(self).live,
            capture@.len() > 0,
        ensures
            final(self).live,
            final(self).max_side == old(self).max_side,
            final(self).screenshots@ == old(self).screenshots@.push(
                PendingScreenshot { image, tokens: capture },
            ),
    {
        self.screenshots.push(PendingScreenshot { image, tokens: capture });
    }

    /// Drain the whole queue, oldest capture first, appending one event per
    /// capture token, in each entry's token order; the events of one entry
    /// share one image. The queue is empty afterwards, and the events already
    /// in the list are untouched.
    pub fn handle_screenshots(&mut self, events: &mut Vec<ScreenshotEvent>)
        requires
            old(self).live,
        ensures
            final(self).live,
            final(self).max_side == old(self).max_side,
            final(self).screenshots@ == Seq::<PendingScreenshot>::empty(),
            final(events)@.len() == old(events)@.len() + expanded(old(self).screenshots@).len(),
            forall|i: int| 0 <= i < old(events)@.len() ==> final(events)@[i] == old(events)@[i],
            forall|k: int|
                0 <= k < expanded(old(self).screenshots@).len() ==> event_matches(
                    final(events)@[old(events)@.len() + k],
                    expanded(old(self).screenshots@)[k],
                ),
    {
        let ghost orig = self.screenshots@;
        let ghost ev0 = events@;
        let ghost lv = self.live;
        let ghost ms = self.max_side;
        let mut done: Ghost<Seq<(FrameImage, CaptureToken)>> = Ghost(Seq::empty());
        proof {
            assert(done@ + expanded(self.screenshots@) =~= expanded(orig));
        }
        while self.screenshots.len() > 0
            invariant
                self.live == lv,
                self.max_side == ms,
                done@ + expanded(self.screenshots@) == expanded(orig),
                events@.len() == ev0.len() + done@.len(),
                forall|i: int| 0 <= i < ev0.len() ==> events@[i] == ev0[i],
                forall|k: int|
                    0 <= k < done@.len() ==> event_matches(events@[ev0.len() + k], done@[k]),
            decreases self.screenshots@.len(),
        {
            let ghost remaining = self.screenshots@;
            let entry = self.screenshots.remove(0);
            let ghost entry_g = entry;
            proof {
                assert(self.screenshots@ =~= remaining.skip(1));
            }
            let PendingScreenshot { image, tokens } = entry;
            let shared = Arc::new(image);
            let ghost base = events@.len() as int;
            let ghost before_evs = events@;
            push_entry_events(events, &shared, &tokens);
            proof {
                let prev = done@;
                done@ = done@ + entry_events(entry_g);
                assert(expanded(remaining) == entry_events(entry_g) + expanded(remaining.skip(1)));
                assert(done@ + expanded(self.screenshots@) =~= expanded(orig));
                assert forall|k: int| 0 <= k < done@.len() implies event_matches(
                    events@[ev0.len() + k],
                    done@[k],
                ) by {
                    if k < prev.len() {
                        assert(events@[ev0.len() + k] == before_evs[ev0.len() + k]);
                        assert(event_matches(before_evs[ev0.len() + k], prev[k]));
                        assert(done@[k] == prev[k]);
                    } else {
                        let j = k - prev.len();
                        assert(ev0.len() + k == base + j);
                        assert(events@[base + j].image == shared);
                        assert(events@[base + j].token == tokens@[j]);
                        assert(events@[base + j].viewport == ROOT_VIEWPORT);
                        assert(done@[k] == entry_events(entry_g)[j]);
                        assert(entry_events(entry_g)[j] == (entry_g.image, entry_g.tokens@[j]));
                    }
                }
            }
        }
        proof {
            assert(expanded(self.screenshots@) =~= Seq::<(FrameImage, CaptureToken)>::empty());
            assert(done@ =~= expanded(orig));
            assert(self.screenshots@ =~= Seq::<PendingScreenshot>::empty());
        }
    }

    /// Release the painter: after destruction no operation is valid. The
    /// shell releases the graphics context and the executor's GPU resources
    /// alongside this call.
    pub fn destroy(&mut self)
        requires
            old(self).live,
        ensures
            !final(self).live,
            final(self).max_side == old(self).max_side,
            final(self).screenshots@ == old(self).screenshots@,
    {
        self.live = false;
    }
}

} // verus!
