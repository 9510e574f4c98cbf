use vstd::prelude::*;

verus! {

/// The front end's context, through which a redraw is asked for.
#[verifier::external_type_specification]
#[verifier::external_body]
pub struct ExContext(eframe::egui::Context);

/// How many redraws have been asked of the front end through this handle to
/// its context.
pub uninterp spec fn redraws_asked(ui_ctx: eframe::egui::Context) -> nat;

/// `egui::Context::clone`: one more handle to the same context.
#[verifier::external_body]
pub(crate) fn share(ui_ctx: &eframe::egui::Context) -> (shared: eframe::egui::Context)
    ensures
        shared == *ui_ctx,
{
    ui_ctx.clone()
}

/// `egui::Context::request_repaint`: asks the front end to draw another frame
/// soon, waking it if it sleeps. Each call is one more request; the context
/// notes its cause and tells its observer, whether or not a frame is already
/// due.
#[verifier::external_body]
pub(crate) fn request_repaint(ui_ctx: &mut eframe::egui::Context)
    ensures
        redraws_asked(*final(ui_ctx)) == redraws_asked(*old(ui_ctx)) + 1,
{
    ui_ctx.request_repaint();
}

} // verus!
