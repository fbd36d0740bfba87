//! Verified core of the ProtractorPlus on-screen protractor: the settings and
//! box-path file formats, the feature, pin and lock rules, the decisions of
//! the mouse, wheel and keyboard handlers, label placement, the distance
//! editor, the context menu model, the glyph compositing arithmetic and the
//! window icon.
pub mod scan;
pub mod settings;
pub mod box_state;
pub mod box_path;
pub mod distance;
pub mod menu;
pub mod raster;
pub mod icon;
pub mod features;
pub mod input;
pub mod placement;
pub mod startup;
