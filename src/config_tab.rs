use vstd::prelude::*;

verus! {

/// The tabs of the configuration pane under the selected preview.
#[derive(Debug, Clone, Copy, Default, PartialEq, Eq, Structural)]
pub enum ConfigTab {
    /// Metadata of the current preview.
    #[default]
    About,
    /// Its adjustable parameters.
    Parameters,
    /// The messages it emitted.
    Messages,
    /// Its timings.
    Performance,
}

impl ConfigTab {
    /// Every tab, in display order.
    pub const ALL: [ConfigTab; 4] = [
        ConfigTab::About,
        ConfigTab::Parameters,
        ConfigTab::Messages,
        ConfigTab::Performance,
    ];

    /// The tab's display name.
    pub fn name(&self) -> (r: &'static str)
        ensures
            r@ == match self {
                ConfigTab::About => "About"@,
                ConfigTab::Parameters => "Parameters"@,
                ConfigTab::Messages => "Messages"@,
                ConfigTab::Performance => "Performance"@,
            },
    {
        match self {
            ConfigTab::About => "About",
            ConfigTab::Parameters => "Parameters",
            ConfigTab::Messages => "Messages",
            ConfigTab::Performance => "Performance",
        }
    }
}

} // verus!
