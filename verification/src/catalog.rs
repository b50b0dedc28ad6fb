//! The curated catalog of themes that can be installed from their
//! repositories.

use crate::theme::{remote_theme, Theme};
use vstd::prelude::*;

verus! {

/// Name, repository and author of each curated theme.
pub const CURATED: [(&'static str, &'static str, &'static str); 105] = [
    ("aetheria", "https://github.com/JJDizz1L/aetheria", "JJDizz1L"),
    ("aamis", "https://github.com/vyrx-dev/omarchy-aamis-theme", "vyrx-dev"),
    ("alabaster", "https://github.com/grierson/omarchy-alabaster-theme", "grierson"),
    ("akane", "https://github.com/Grenish/omarchy-akane-theme", "Grenish"),
    ("agentuity", "https://github.com/rblalock/omarchy-agentuity.theme", "rblalock"),
    ("all-hallows-eve", "https://github.com/guilhermetk/omarchy-all-hallows-eve-theme", "guilhermetk"),
    ("amberbyte", "https://github.com/tahfizhabib/omarchy-amberbyte-theme", "tahfizhabib"),
    ("anonymous", "https://github.com/j4v3l/omarchy-anonymous-theme", "j4v3l"),
    ("arc-blueberry", "https://github.com/vale-c/omarchy-arc-blueberry", "vale-c"),
    ("archriot", "https://github.com/CyphrRiot/omarchy-archriot-theme", "CyphrRiot"),
    ("ash", "https://github.com/bjarneo/omarchy-ash-theme", "bjarneo"),
    ("aura", "https://github.com/bjarneo/omarchy-aura-theme", "bjarneo"),
    ("ayaka", "https://github.com/abhijeet-swami/omarchy-ayaka-theme", "abhijeet-swami"),
    ("ayu-dark", "https://github.com/fdidron/omarchy-ayu-dark-theme", "fdidron"),
    ("ayu-light", "https://github.com/fdidron/omarchy-ayu-light-theme", "fdidron"),
    ("ayu-mirage", "https://github.com/fdidron/omarchy-ayumirage", "fdidron"),
    ("azure-glow", "https://github.com/Hydradevx/omarchy-azure-glow-theme", "Hydradevx"),
    ("batou", "https://github.com/HANCORE-linux/omarchy-batou-theme", "HANCORE-linux"),
    ("bauhaus", "https://github.com/somerocketeer/omarchy-bauhaus-theme", "somerocketeer"),
    ("blackgold", "https://github.com/HANCORE-linux/omarchy-blackgold-theme", "HANCORE-linux"),
    ("blackmoney", "https://github.com/HANCORE-linux/omarchy-blackmoney-theme", "HANCORE-linux"),
    ("blackturq", "https://github.com/HANCORE-linux/omarchy-blackturq-theme", "HANCORE-linux"),
    ("blueridge-dark", "https://github.com/hipsterusername/omarchy-blueridge-dark-theme", "hipsterusername"),
    ("c64", "https://github.com/scar45/omarchy-c64-theme", "scar45"),
    ("catppuccin-mocha", "https://github.com/KidDogDad/omarchy-catppuccin-mocha-theme", "KidDogDad"),
    ("cobalt2", "https://github.com/hoblin/omarchy-cobalt2-theme", "hoblin"),
    ("crimson-gold", "https://github.com/knappkevin/omarchy-crimson-gold-theme", "knappkevin"),
    ("delorean", "https://github.com/jbnunn/omarchy-delorean-theme", "jbnunn"),
    ("doom", "https://github.com/AX200M/omarchy-doom-theme", "AX200M"),
    ("dracula", "https://github.com/catlee/omarchy-dracula-theme", "catlee"),
    ("dracula-official", "https://github.com/dracula/omarchy", "dracula"),
    ("elysian", "https://github.com/bjarneo/omarchy-elysian-theme", "bjarneo"),
    ("ember-n-ash", "https://github.com/Hydradevx/omarchy-ember-n-ash-theme", "Hydradevx"),
    ("everblush", "https://github.com/Swarnim114/omarchy-everblush-theme", "Swarnim114"),
    ("evergarden", "https://github.com/celsobenedetti/omarchy-evergarden", "celsobenedetti"),
    ("f1", "https://github.com/999Gabriel/F1-omarchy", "999Gabriel"),
    ("felix", "https://github.com/TyRichards/omarchy-felix-theme", "TyRichards"),
    ("fiery-ocean", "https://github.com/bjarneo/omarchy-fiery-ocean-theme", "bjarneo"),
    ("fireside", "https://github.com/bjarneo/omarchy-fireside-theme", "bjarneo"),
    ("firesky", "https://github.com/bjarneo/omarchy-firesky-theme", "bjarneo"),
    ("flexoki-dark", "https://github.com/euandeas/omarchy-flexoki-dark-theme", "euandeas"),
    ("flexoki-light", "https://github.com/euandeas/omarchy-flexoki-light-theme", "euandeas"),
    ("forest-green", "https://github.com/abhijeet-swami/omarchy-forest-green-theme", "abhijeet-swami"),
    ("frost", "https://github.com/bjarneo/omarchy-frost-theme", "bjarneo"),
    ("futurism", "https://github.com/bjarneo/omarchy-futurism-theme", "bjarneo"),
    ("github-light", "https://github.com/ryanyogan/omarchy-github-light-theme", "ryanyogan"),
    ("gold-rush", "https://github.com/tahayvr/omarchy-gold-rush-theme", "tahayvr"),
    ("green-garden", "https://github.com/kalk-ak/omarchy-green-garden-theme", "kalk-ak"),
    ("gtk", "https://github.com/bjarneo/omarchy-gtk-theme", "bjarneo"),
    ("harbor", "https://github.com/HANCORE-linux/omarchy-harbor-theme", "HANCORE-linux"),
    ("harbordark", "https://github.com/HANCORE-linux/omarchy-harbordark-theme", "HANCORE-linux"),
    ("hollow-knight", "https://github.com/bjarneo/omarchy-hollow-knight-theme", "bjarneo"),
    ("inkypinky", "https://github.com/HANCORE-linux/omarchy-inkypinky-theme", "HANCORE-linux"),
    ("kanagawa-dragon", "https://github.com/MrTrigger/omarchy-kanagawa-dragon-theme", "MrTrigger"),
    ("kimiko", "https://github.com/krymzonn/omarchy-kimiko-theme", "krymzonn"),
    ("mars", "https://github.com/steve-lohmeyer/omarchy-mars-theme", "steve-lohmeyer"),
    ("matte-black", "https://github.com/tahayvr/omarchy-matte-black", "tahayvr"),
    ("mechanoonna", "https://github.com/HANCORE-linux/omarchy-mechanoonna-theme", "HANCORE-linux"),
    ("midnight", "https://github.com/JaxonWright/omarchy-midnight-theme", "JaxonWright"),
    ("milkmatcha-light", "https://github.com/hipsterusername/omarchy-milkmatcha-light-theme", "hipsterusername"),
    ("monochrome", "https://github.com/Swarnim114/omarchy-monochrome-theme", "Swarnim114"),
    ("monokai", "https://github.com/bjarneo/omarchy-monokai-theme", "bjarneo"),
    ("monokai-dark", "https://github.com/ericrswanny/omarchy-monokai-dark-theme", "ericrswanny"),
    ("moodpeak", "https://github.com/HANCORE-linux/omarchy-moodpeak-theme", "HANCORE-linux"),
    ("motivator", "https://github.com/rondilley/omarchy-motivator-theme", "rondilley"),
    ("nagai-twilight", "https://github.com/somerocketeer/omarchy-nagai-twilight-theme", "somerocketeer"),
    ("nes", "https://github.com/bjarneo/omarchy-nes-theme", "bjarneo"),
    ("night-owl", "https://github.com/maxberggren/omarchy-night-owl-theme", "maxberggren"),
    ("obsidian", "https://github.com/Hydradevx/omarchy-obsidian-theme", "Hydradevx"),
    ("one-dark-pro", "https://github.com/sc0ttman/omarchy-one-dark-pro", "sc0ttman"),
    ("osaka-jade", "https://github.com/Justikun/omarchy-osaka-jade-theme", "Justikun"),
    ("pina", "https://github.com/bjarneo/omarchy-pina-theme", "bjarneo"),
    ("pink-blood", "https://github.com/ITSZXY/pink-blood-omarchy-theme", "ITSZXY"),
    ("pulsar", "https://github.com/bjarneo/omarchy-pulsar-theme", "bjarneo"),
    ("pure-latin", "https://github.com/daurydicaprio/omarchy-pure-latin-theme", "daurydicaprio"),
    ("purplewave", "https://github.com/dotsilva/omarchy-purplewave-theme", "dotsilva"),
    ("retro-fallout", "https://github.com/zdravkodanailov7/omarchy-retro-fallout-theme", "zdravkodanailov7"),
    ("retropc", "https://github.com/rondilley/omarchy-retropc-theme", "rondilley"),
    ("reverie", "https://github.com/bjarneo/omarchy-reverie-theme", "bjarneo"),
    ("rose-pine", "https://github.com/guilhermetk/omarchy-rose-pine", "guilhermetk"),
    ("rose-pine-dark", "https://github.com/guilhermetk/omarchy-rose-pine-dark", "guilhermetk"),
    ("rose-pine-dawn", "https://github.com/ryanyogan/omarchy-rose-pine-dawn-theme", "ryanyogan"),
    ("sakura", "https://github.com/bjarneo/omarchy-sakura-theme", "bjarneo"),
    ("sapphire", "https://github.com/HANCORE-linux/omarchy-sapphire-theme", "HANCORE-linux"),
    ("serenity", "https://github.com/bjarneo/omarchy-serenity-theme", "bjarneo"),
    ("shadesofjade", "https://github.com/HANCORE-linux/omarchy-shadesofjade-theme", "HANCORE-linux"),
    ("snow", "https://github.com/bjarneo/omarchy-snow-theme", "bjarneo"),
    ("solarized", "https://github.com/Gazler/omarchy-solarized-theme", "Gazler"),
    ("solarized-light", "https://github.com/dfrico/omarchy-solarized-light-theme", "dfrico"),
    ("solarized-osaka", "https://github.com/motorsss/omarchy-solarizedosaka-theme", "motorsss"),
    ("space-monkey", "https://github.com/TyRichards/omarchy-space-monkey-theme", "TyRichards"),
    ("spectra", "https://github.com/abhijeet-swami/omarchy-spectra-theme", "abhijeet-swami"),
    ("sunset-drive", "https://github.com/tahayvr/omarchy-sunset-drive-theme", "tahayvr"),
    ("synthwave84", "https://github.com/omacom-io/omarchy-synthwave84-theme", "omacom-io"),
    ("thegreek", "https://github.com/HANCORE-linux/omarchy-thegreek-theme", "HANCORE-linux"),
    ("tycho", "https://github.com/leonardobetti/omarchy-tycho", "leonardobetti"),
    ("velocity", "https://github.com/perfektnacht/omarchy-velocity-theme", "perfektnacht"),
    ("velvetnight", "https://github.com/HANCORE-linux/omarchy-velvetnight-theme", "HANCORE-linux"),
    ("vesper", "https://github.com/thmoee/omarchy-vesper-theme", "thmoee"),
    ("vhs80", "https://github.com/tahayvr/omarchy-vhs80-theme", "tahayvr"),
    ("void", "https://github.com/vyrx-dev/omarchy-void-theme", "vyrx-dev"),
    ("wasteland", "https://github.com/perfektnacht/omarchy-wasteland-theme", "perfektnacht"),
    ("waveform-dark", "https://github.com/hipsterusername/omarchy-waveform-dark-theme", "hipsterusername"),
    ("whitegold", "https://github.com/HANCORE-linux/omarchy-whitegold-theme", "HANCORE-linux"),
    ("wood", "https://github.com/bjarneo/omarchy-wood-theme", "bjarneo"),
];

/// The curated themes, each as a theme that is available remotely, in the
/// order of the catalog.
pub fn get_awesome_omarchy_themes() -> (r: Vec<Theme>)
    ensures
        r@.len() == CURATED@.len(),
        forall|i: int|
            0 <= i < r@.len() ==> #[trigger] r@[i]@ == remote_theme(
                CURATED@[i].0@,
                CURATED@[i].1@,
                Some(CURATED@[i].2@),
            ),
{
    let mut themes: Vec<Theme> = Vec::new();
    let mut i: usize = 0;
    while i < CURATED.len()
        invariant
            i <= CURATED@.len(),
            themes@.len() == i,
            forall|k: int|
                0 <= k < i ==> #[trigger] themes@[k]@ == remote_theme(
                    CURATED@[k].0@,
                    CURATED@[k].1@,
                    Some(CURATED@[k].2@),
                ),
        decreases CURATED@.len() - i,
    {
        let entry = CURATED[i];
        let theme = Theme::from_remote(entry.0, entry.1, Some(entry.2));
        themes.push(theme);
        i = i + 1;
    }
    themes
}

} // verus!
