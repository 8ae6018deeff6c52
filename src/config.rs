//! The application's configuration: colours, preset durations and their
//! labels, the alert window, fonts, credits, button visibility and debug
//! output. Each section has the values a missing configuration file stands
//! for.

use vstd::prelude::*;

verus! {

/// An RGBA colour.
#[derive(Clone, Copy, Debug, PartialEq, Eq, Structural)]
pub struct Color {
    pub r: u8,
    pub g: u8,
    pub b: u8,
    pub a: u8,
}

/// Opacity of the start, pause and reset button colours.
pub const BUTTON_ALPHA: u8 = 150;

/// An opaque colour from an RGB triple.
pub open spec fn opaque(c: [u8; 3]) -> Color {
    Color { r: c[0], g: c[1], b: c[2], a: 255 }
}

/// A colour from an RGB triple with the given opacity.
pub open spec fn translucent(c: [u8; 3], a: u8) -> Color {
    Color { r: c[0], g: c[1], b: c[2], a }
}

/// Colours of the control window, as RGB triples.
#[derive(Clone, Copy, Debug)]
pub struct CoresConfig {
    pub cor_background: [u8; 3],
    pub cor_botoes: [u8; 3],
    pub cor_vermelho: [u8; 3],
    pub cor_verde: [u8; 3],
    pub cor_azul: [u8; 3],
    pub cor_texto: [u8; 3],
}

impl CoresConfig {
    /// Background colour, opaque.
    pub fn get_background_color(&self) -> (r: Color)
        ensures
            r == opaque(self.cor_background),
    {
        Color {
            r: self.cor_background[0],
            g: self.cor_background[1],
            b: self.cor_background[2],
            a: 255,
        }
    }

    /// Colour of the preset buttons, opaque.
    pub fn get_button_color(&self) -> (r: Color)
        ensures
            r == opaque(self.cor_botoes),
    {
        Color { r: self.cor_botoes[0], g: self.cor_botoes[1], b: self.cor_botoes[2], a: 255 }
    }

    /// Colour of the reset button, translucent.
    pub fn get_red_color(&self) -> (r: Color)
        ensures
            r == translucent(self.cor_vermelho, BUTTON_ALPHA),
    {
        Color {
            r: self.cor_vermelho[0],
            g: self.cor_vermelho[1],
            b: self.cor_vermelho[2],
            a: BUTTON_ALPHA,
        }
    }

    /// Colour of the start button, translucent.
    pub fn get_green_color(&self) -> (r: Color)
        ensures
            r == translucent(self.cor_verde, BUTTON_ALPHA),
    {
        Color { r: self.cor_verde[0], g: self.cor_verde[1], b: self.cor_verde[2], a: BUTTON_ALPHA }
    }

    /// Colour of the pause button, translucent.
    pub fn get_blue_color(&self) -> (r: Color)
        ensures
            r == translucent(self.cor_azul, BUTTON_ALPHA),
    {
        Color { r: self.cor_azul[0], g: self.cor_azul[1], b: self.cor_azul[2], a: BUTTON_ALPHA }
    }

    /// Colour of the preset labels, opaque.
    pub fn get_text_color(&self) -> (r: Color)
        ensures
            r == opaque(self.cor_texto),
    {
        Color { r: self.cor_texto[0], g: self.cor_texto[1], b: self.cor_texto[2], a: 255 }
    }
}

impl CoresConfig {
    /// The values that stand where the configuration names none.
    pub open spec fn is_default(&self) -> bool {
        &&& self.cor_background == [9u8, 61, 83]
        &&& self.cor_botoes == [255u8, 255, 255]
        &&& self.cor_vermelho == [100u8, 0, 0]
        &&& self.cor_verde == [0u8, 100, 0]
        &&& self.cor_azul == [0u8, 0, 100]
        &&& self.cor_texto == [0u8, 0, 0]
    }
}

impl Default for CoresConfig {
    fn default() -> (r: CoresConfig)
        ensures
            r.is_default(),
    {
        CoresConfig {
            cor_background: [9, 61, 83],
            cor_botoes: [255, 255, 255],
            cor_vermelho: [100, 0, 0],
            cor_verde: [0, 100, 0],
            cor_azul: [0, 0, 100],
            cor_texto: [0, 0, 0],
        }
    }
}

/// Whether the welcome text is printed at start-up.
#[derive(Clone, Copy, Debug)]
pub struct BoasVindasConfig {
    pub mostrar_boas_vindas: bool,
}

impl BoasVindasConfig {
    /// Whether the welcome text is printed.
    pub fn mostrar_boas_vindas(&self) -> (r: bool)
        ensures
            r == self.mostrar_boas_vindas,
    {
        self.mostrar_boas_vindas
    }
}

impl BoasVindasConfig {
    /// The values that stand where the configuration names none.
    pub open spec fn is_default(&self) -> bool {
        &&& self.mostrar_boas_vindas
    }
}

impl Default for BoasVindasConfig {
    fn default() -> (r: BoasVindasConfig)
        ensures
            r.is_default(),
    {
        BoasVindasConfig { mostrar_boas_vindas: true }
    }
}

/// The font file and the four text sizes.
#[derive(Clone, Debug)]
pub struct FontesConfig {
    pub fonte: String,
    pub fonte_gigante: u16,
    pub fonte_media: u16,
    pub fonte_grande: u16,
    pub fonte_pequena: u16,
}

impl FontesConfig {
    /// Name of the font file.
    pub fn get_fonte(&self) -> (r: &str)
        ensures
            r@ == self.fonte@,
    {
        self.fonte.as_str()
    }

    /// Size of the main timer digits.
    pub fn get_fonte_gigante(&self) -> (r: u16)
        ensures
            r == self.fonte_gigante,
    {
        self.fonte_gigante
    }

    /// Size of the preset labels and the entry field.
    pub fn get_fonte_media(&self) -> (r: u16)
        ensures
            r == self.fonte_media,
    {
        self.fonte_media
    }

    /// Size of the button captions and the small timer.
    pub fn get_fonte_grande(&self) -> (r: u16)
        ensures
            r == self.fonte_grande,
    {
        self.fonte_grande
    }

    /// Size of the credits line.
    pub fn get_fonte_pequena(&self) -> (r: u16)
        ensures
            r == self.fonte_pequena,
    {
        self.fonte_pequena
    }
}

impl FontesConfig {
    /// The values that stand where the configuration names none.
    pub open spec fn is_default(&self) -> bool {
        &&& self.fonte@ == "GlobotipoVariable-VF.ttf"@
        &&& self.fonte_gigante == 64
        &&& self.fonte_media == 32
        &&& self.fonte_grande == 24
        &&& self.fonte_pequena == 16
    }
}

impl Default for FontesConfig {
    fn default() -> (r: FontesConfig)
        ensures
            r.is_default(),
    {
        FontesConfig {
            fonte: String::from_str("GlobotipoVariable-VF.ttf"),
            fonte_gigante: 64,
            fonte_media: 32,
            fonte_grande: 24,
            fonte_pequena: 16,
        }
    }
}

/// Number of preset buttons.
pub const PRESET_COUNT: usize = 9;

/// Alert window used where the configuration names none, in seconds.
pub const DEFAULT_ALERT_SECS: u64 = 10;

/// Preset durations, the reset duration and the alert window, in seconds.
#[derive(Clone, Copy, Debug)]
pub struct TempoConfig {
    pub tempo1: u64,
    pub tempo2: u64,
    pub tempo3: u64,
    pub tempo4: u64,
    pub tempo5: u64,
    pub tempo6: u64,
    pub tempo7: u64,
    pub tempo8: u64,
    pub tempo9: u64,
    pub tempo_reset: u64,
    pub tempo_alerta_regressiva: u64,
}

impl TempoConfig {
    /// Duration of preset `index` (1 to 9); any other index stands for the
    /// reset duration.
    pub open spec fn preset_secs(&self, index: int) -> u64 {
        if index == 1 {
            self.tempo1
        } else if index == 2 {
            self.tempo2
        } else if index == 3 {
            self.tempo3
        } else if index == 4 {
            self.tempo4
        } else if index == 5 {
            self.tempo5
        } else if index == 6 {
            self.tempo6
        } else if index == 7 {
            self.tempo7
        } else if index == 8 {
            self.tempo8
        } else if index == 9 {
            self.tempo9
        } else {
            self.tempo_reset
        }
    }

    /// Duration of preset `index` (1 to 9), or the reset duration for any
    /// other index.
    pub fn get_tempo(&self, index: usize) -> (r: u64)
        ensures
            r == self.preset_secs(index as int),
    {
        match index {
            1 => self.tempo1,
            2 => self.tempo2,
            3 => self.tempo3,
            4 => self.tempo4,
            5 => self.tempo5,
            6 => self.tempo6,
            7 => self.tempo7,
            8 => self.tempo8,
            9 => self.tempo9,
            _ => self.tempo_reset,
        }
    }

    /// Duration the reset button sets.
    pub fn get_tempo_reset(&self) -> (r: u64)
        ensures
            r == self.tempo_reset,
    {
        self.tempo_reset
    }

    /// Seconds left from which the timer digits blink.
    pub fn get_tempo_alerta_regressiva(&self) -> (r: u64)
        ensures
            r == self.tempo_alerta_regressiva,
    {
        self.tempo_alerta_regressiva
    }
}

impl TempoConfig {
    /// The values that stand where the configuration names none.
    pub open spec fn is_default(&self) -> bool {
        &&& self.tempo1 == 30
        &&& self.tempo2 == 60
        &&& self.tempo3 == 75
        &&& self.tempo4 == 120
        &&& self.tempo5 == 1200
        &&& self.tempo6 == 0
        &&& self.tempo7 == 120
        &&& self.tempo8 == 1200
        &&& self.tempo9 == 0
        &&& self.tempo_reset == 14
        &&& self.tempo_alerta_regressiva == DEFAULT_ALERT_SECS
    }
}

impl Default for TempoConfig {
    fn default() -> (r: TempoConfig)
        ensures
            r.is_default(),
    {
        TempoConfig {
            tempo1: 30,
            tempo2: 60,
            tempo3: 75,
            tempo4: 120,
            tempo5: 1200,
            tempo6: 0,
            tempo7: 120,
            tempo8: 1200,
            tempo9: 0,
            tempo_reset: 14,
            tempo_alerta_regressiva: DEFAULT_ALERT_SECS,
        }
    }
}

/// Labels of the nine preset buttons.
#[derive(Clone, Debug)]
pub struct TempoTextoConfig {
    pub tempo_texto1: String,
    pub tempo_texto2: String,
    pub tempo_texto3: String,
    pub tempo_texto4: String,
    pub tempo_texto5: String,
    pub tempo_texto6: String,
    pub tempo_texto7: String,
    pub tempo_texto8: String,
    pub tempo_texto9: String,
}

impl TempoTextoConfig {
    /// Label of preset `index` (1 to 9); empty for any other index.
    pub open spec fn label(&self, index: int) -> Seq<char> {
        if index == 1 {
            self.tempo_texto1@
        } else if index == 2 {
            self.tempo_texto2@
        } else if index == 3 {
            self.tempo_texto3@
        } else if index == 4 {
            self.tempo_texto4@
        } else if index == 5 {
            self.tempo_texto5@
        } else if index == 6 {
            self.tempo_texto6@
        } else if index == 7 {
            self.tempo_texto7@
        } else if index == 8 {
            self.tempo_texto8@
        } else if index == 9 {
            self.tempo_texto9@
        } else {
            Seq::empty()
        }
    }

    /// Label of preset `index` (1 to 9), or the empty text.
    pub fn get_tempo_texto(&self, index: usize) -> (r: &str)
        ensures
            r@ == self.label(index as int),
    {
        match index {
            1 => self.tempo_texto1.as_str(),
            2 => self.tempo_texto2.as_str(),
            3 => self.tempo_texto3.as_str(),
            4 => self.tempo_texto4.as_str(),
            5 => self.tempo_texto5.as_str(),
            6 => self.tempo_texto6.as_str(),
            7 => self.tempo_texto7.as_str(),
            8 => self.tempo_texto8.as_str(),
            9 => self.tempo_texto9.as_str(),
            _ => {
                proof {
                    reveal_strlit("");
                }
                let empty = "";
                assert(empty@ =~= Seq::<char>::empty());
                empty
            },
        }
    }
}

impl TempoTextoConfig {
    /// The values that stand where the configuration names none.
    pub open spec fn is_default(&self) -> bool {
        &&& self.tempo_texto1@ == "00:30"@
        &&& self.tempo_texto2@ == "01:00"@
        &&& self.tempo_texto3@ == "01:15"@
        &&& self.tempo_texto4@ == "02:00"@
        &&& self.tempo_texto5@ == "20:00"@
        &&& self.tempo_texto6@ == "00:00"@
        &&& self.tempo_texto7@ == "02:00"@
        &&& self.tempo_texto8@ == "20:00"@
        &&& self.tempo_texto9@ == "00:00"@
    }
}

impl Default for TempoTextoConfig {
    fn default() -> (r: TempoTextoConfig)
        ensures
            r.is_default(),
    {
        TempoTextoConfig {
            tempo_texto1: String::from_str("00:30"),
            tempo_texto2: String::from_str("01:00"),
            tempo_texto3: String::from_str("01:15"),
            tempo_texto4: String::from_str("02:00"),
            tempo_texto5: String::from_str("20:00"),
            tempo_texto6: String::from_str("00:00"),
            tempo_texto7: String::from_str("02:00"),
            tempo_texto8: String::from_str("20:00"),
            tempo_texto9: String::from_str("00:00"),
        }
    }
}

/// The credits line at the foot of the control window.
#[derive(Clone, Debug)]
pub struct CreditosConfig {
    pub credito_texto: String,
    pub mostrar_creditos: bool,
}

impl CreditosConfig {
    /// Text of the credits line.
    pub fn get_credito_texto(&self) -> (r: &str)
        ensures
            r@ == self.credito_texto@,
    {
        self.credito_texto.as_str()
    }

    /// Whether the credits line is shown.
    pub fn mostrar_creditos(&self) -> (r: bool)
        ensures
            r == self.mostrar_creditos,
    {
        self.mostrar_creditos
    }
}

impl CreditosConfig {
    /// The values that stand where the configuration names none.
    pub open spec fn is_default(&self) -> bool {
        &&& self.credito_texto@ == "Usando configurações padrão, modifique Config.toml para personalizar"@
        &&& self.mostrar_creditos
    }
}

impl Default for CreditosConfig {
    fn default() -> (r: CreditosConfig)
        ensures
            r.is_default(),
    {
        CreditosConfig {
            credito_texto: String::from_str(
                "Usando configurações padrão, modifique Config.toml para personalizar",
            ),
            mostrar_creditos: true,
        }
    }
}

/// Which of the start, pause and reset buttons are shown and active.
#[derive(Clone, Copy, Debug)]
pub struct BotoesConfig {
    pub botao_reset: bool,
    pub botao_iniciar: bool,
    pub botao_pausar: bool,
}

impl BotoesConfig {
    /// Whether the reset button is shown.
    pub fn mostrar_botao_reset(&self) -> (r: bool)
        ensures
            r == self.botao_reset,
    {
        self.botao_reset
    }

    /// Whether the start button is shown.
    pub fn mostrar_botao_iniciar(&self) -> (r: bool)
        ensures
            r == self.botao_iniciar,
    {
        self.botao_iniciar
    }

    /// Whether the pause button is shown.
    pub fn mostrar_botao_pausar(&self) -> (r: bool)
        ensures
            r == self.botao_pausar,
    {
        self.botao_pausar
    }
}

impl BotoesConfig {
    /// The values that stand where the configuration names none.
    pub open spec fn is_default(&self) -> bool {
        &&& self.botao_reset && self.botao_iniciar && self.botao_pausar
    }
}

impl Default for BotoesConfig {
    fn default() -> (r: BotoesConfig)
        ensures
            r.is_default(),
    {
        BotoesConfig { botao_reset: true, botao_iniciar: true, botao_pausar: true }
    }
}

/// Debug output: frames per second and the timer text on the console.
#[derive(Clone, Copy, Debug)]
pub struct DebugConfig {
    pub mostrar_qps: bool,
    pub mostrar_timer: bool,
}

impl DebugConfig {
    /// Whether the frame rate is shown.
    pub fn mostrar_qps(&self) -> (r: bool)
        ensures
            r == self.mostrar_qps,
    {
        self.mostrar_qps
    }

    /// Whether the timer text is echoed to the console.
    pub fn mostrar_timer(&self) -> (r: bool)
        ensures
            r == self.mostrar_timer,
    {
        self.mostrar_timer
    }
}

impl DebugConfig {
    /// The values that stand where the configuration names none.
    pub open spec fn is_default(&self) -> bool {
        &&& !self.mostrar_qps && !self.mostrar_timer
    }
}

impl Default for DebugConfig {
    fn default() -> (r: DebugConfig)
        ensures
            r.is_default(),
    {
        DebugConfig { mostrar_qps: false, mostrar_timer: false }
    }
}

/// The whole configuration.
#[derive(Clone, Debug)]
pub struct RegressivaConfig {
    pub cores: CoresConfig,
    pub tempo: TempoConfig,
    pub tempo_texto: TempoTextoConfig,
    pub creditos: CreditosConfig,
    pub botoes: BotoesConfig,
    pub debug: DebugConfig,
    pub fontes: FontesConfig,
    pub boas_vindas: BoasVindasConfig,
}

impl Default for RegressivaConfig {
    fn default() -> (r: RegressivaConfig)
        ensures
            r.cores.is_default(),
            r.tempo.is_default(),
            r.tempo_texto.is_default(),
            r.creditos.is_default(),
            r.botoes.is_default(),
            r.debug.is_default(),
            r.fontes.is_default(),
            r.boas_vindas.is_default(),
    {
        RegressivaConfig {
            cores: CoresConfig::default(),
            tempo: TempoConfig::default(),
            tempo_texto: TempoTextoConfig::default(),
            creditos: CreditosConfig::default(),
            botoes: BotoesConfig::default(),
            debug: DebugConfig::default(),
            fontes: FontesConfig::default(),
            boas_vindas: BoasVindasConfig::default(),
        }
    }
}

} // verus!
