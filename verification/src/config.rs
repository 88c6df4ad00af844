//! Engine configuration: the palette of named styles, constructed explicitly
//! and handed to the engine at startup instead of living in process-wide
//! state. Annotations refer to a style by its index in this palette.

use vstd::prelude::*;
use vstd::string::StringExecFns;

verus! {

/// One available style: a name shown to the user and the color it renders
/// with, as the host understands it.
pub struct StyleDef {
    pub name: String,
    pub color: String,
}

/// The palette of styles a highlight may use; an annotation's style tag is an
/// index into it.
pub struct HighlightConfig {
    pub styles: Vec<StyleDef>,
}

impl HighlightConfig {
    /// The default palette of six named colors.
    pub fn default_palette() -> (c: HighlightConfig)
        ensures
            c.styles@.len() == 6,
            c.styles@[0].name@ == "Red"@ && c.styles@[0].color@ == "#ff0000"@,
            c.styles@[1].name@ == "Green"@ && c.styles@[1].color@ == "#00ff00"@,
            c.styles@[2].name@ == "Blue"@ && c.styles@[2].color@ == "#0000ff"@,
            c.styles@[3].name@ == "Purple"@ && c.styles@[3].color@ == "#A020F0"@,
            c.styles@[4].name@ == "Yellow"@ && c.styles@[4].color@ == "#ffff00"@,
            c.styles@[5].name@ == "Black"@ && c.styles@[5].color@ == "#000000"@,
    {
        let mut styles: Vec<StyleDef> = Vec::new();
        styles.push(
            StyleDef { name: String::from_str("Red"), color: String::from_str("#ff0000") },
        );
        styles.push(
            StyleDef { name: String::from_str("Green"), color: String::from_str("#00ff00") },
        );
        styles.push(
            StyleDef { name: String::from_str("Blue"), color: String::from_str("#0000ff") },
        );
        styles.push(
            StyleDef { name: String::from_str("Purple"), color: String::from_str("#A020F0") },
        );
        styles.push(
            StyleDef { name: String::from_str("Yellow"), color: String::from_str("#ffff00") },
        );
        styles.push(
            StyleDef { name: String::from_str("Black"), color: String::from_str("#000000") },
        );
        HighlightConfig { styles }
    }

    /// How many styles the palette offers.
    pub fn style_count(&self) -> (n: usize)
        ensures
            n == self.styles@.len(),
    {
        self.styles.len()
    }
}

} // verus!
