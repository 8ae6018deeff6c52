use regressiva::config::{
    BoasVindasConfig, BotoesConfig, Color, CoresConfig, CreditosConfig, DebugConfig,
    FontesConfig, RegressivaConfig, TempoConfig, TempoTextoConfig,
};

#[test]
fn default_colors() {
    let c = CoresConfig::default();
    assert_eq!(c.get_background_color(), Color { r: 9, g: 61, b: 83, a: 255 });
    assert_eq!(c.get_button_color(), Color { r: 255, g: 255, b: 255, a: 255 });
    assert_eq!(c.get_red_color(), Color { r: 100, g: 0, b: 0, a: 150 });
    assert_eq!(c.get_green_color(), Color { r: 0, g: 100, b: 0, a: 150 });
    assert_eq!(c.get_blue_color(), Color { r: 0, g: 0, b: 100, a: 150 });
    assert_eq!(c.get_text_color(), Color { r: 0, g: 0, b: 0, a: 255 });
}

#[test]
fn custom_colors_keep_channel_order() {
    let c = CoresConfig {
        cor_background: [1, 2, 3],
        cor_botoes: [4, 5, 6],
        cor_vermelho: [7, 8, 9],
        cor_verde: [10, 11, 12],
        cor_azul: [13, 14, 15],
        cor_texto: [16, 17, 18],
    };
    assert_eq!(c.get_background_color(), Color { r: 1, g: 2, b: 3, a: 255 });
    assert_eq!(c.get_button_color(), Color { r: 4, g: 5, b: 6, a: 255 });
    assert_eq!(c.get_red_color(), Color { r: 7, g: 8, b: 9, a: 150 });
    assert_eq!(c.get_green_color(), Color { r: 10, g: 11, b: 12, a: 150 });
    assert_eq!(c.get_blue_color(), Color { r: 13, g: 14, b: 15, a: 150 });
    assert_eq!(c.get_text_color(), Color { r: 16, g: 17, b: 18, a: 255 });
}

#[test]
fn default_presets_and_reset() {
    let t = TempoConfig::default();
    let expected = [30, 60, 75, 120, 1200, 0, 120, 1200, 0];
    for (i, secs) in expected.iter().enumerate() {
        assert_eq!(t.get_tempo(i + 1), *secs);
    }
    assert_eq!(t.get_tempo_reset(), 14);
    assert_eq!(t.get_tempo(0), 14);
    assert_eq!(t.get_tempo(10), 14);
    assert_eq!(t.get_tempo_alerta_regressiva(), 10);
}

#[test]
fn default_preset_labels() {
    let t = TempoTextoConfig::default();
    let expected = ["00:30", "01:00", "01:15", "02:00", "20:00", "00:00", "02:00", "20:00", "00:00"];
    for (i, label) in expected.iter().enumerate() {
        assert_eq!(t.get_tempo_texto(i + 1), *label);
    }
    assert_eq!(t.get_tempo_texto(0), "");
    assert_eq!(t.get_tempo_texto(10), "");
}

#[test]
fn default_fonts() {
    let f = FontesConfig::default();
    assert_eq!(f.get_fonte(), "GlobotipoVariable-VF.ttf");
    assert_eq!(f.get_fonte_gigante(), 64);
    assert_eq!(f.get_fonte_media(), 32);
    assert_eq!(f.get_fonte_grande(), 24);
    assert_eq!(f.get_fonte_pequena(), 16);
}

#[test]
fn default_flags_and_credits() {
    let c = RegressivaConfig::default();
    assert!(c.boas_vindas.mostrar_boas_vindas());
    assert!(c.creditos.mostrar_creditos());
    assert_eq!(
        c.creditos.get_credito_texto(),
        "Usando configurações padrão, modifique Config.toml para personalizar"
    );
    assert!(c.botoes.mostrar_botao_reset());
    assert!(c.botoes.mostrar_botao_iniciar());
    assert!(c.botoes.mostrar_botao_pausar());
    assert!(!c.debug.mostrar_qps());
    assert!(!c.debug.mostrar_timer());
}

#[test]
fn getters_read_their_own_fields() {
    let b = BotoesConfig { botao_reset: true, botao_iniciar: false, botao_pausar: true };
    assert!(b.mostrar_botao_reset());
    assert!(!b.mostrar_botao_iniciar());
    assert!(b.mostrar_botao_pausar());
    let d = DebugConfig { mostrar_qps: true, mostrar_timer: false };
    assert!(d.mostrar_qps());
    assert!(!d.mostrar_timer());
    let w = BoasVindasConfig { mostrar_boas_vindas: false };
    assert!(!w.mostrar_boas_vindas());
    let c = CreditosConfig { credito_texto: "feito por nós".to_string(), mostrar_creditos: false };
    assert_eq!(c.get_credito_texto(), "feito por nós");
    assert!(!c.mostrar_creditos());
}
