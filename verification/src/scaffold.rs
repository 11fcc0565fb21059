//! The fixed texts a new project starts from: the dependency block
//! spliced into its manifest and the default data templates.

use vstd::prelude::*;

verus! {

use vstd::string::StrSliceExecFns;
use vstd::string::StringSliceAdditionalSpecFns;
use crate::template::TemplateVariableMap;
use crate::template::expand;
use crate::template::lemma_expand_leaves_no_token;
use crate::template::token_free;
use crate::template::token_safe;

/// The dependency block appended to the generated manifest, up to the
/// opening quote of the injected application id.
pub open spec fn manifest_deps_head() -> Seq<u8> {
    "[dependencies]
log = \"0.4\"
gettext-rs = { version = \"0.5\", features = [\"gettext-system\"] }

[dependencies.gtk]
git = \"https://github.com/gtk-rs/gtk4\"
package = \"gtk4\"

[dependencies.glib]
git = \"https://github.com/gtk-rs/glib\"
features = [\"v2_60\"]

[dependencies.gio]
git = \"https://github.com/gtk-rs/gio\"
features = [\"v2_60\"]

[dependencies.gdk]
git = \"https://github.com/gtk-rs/gdk4\"
package = \"gdk4\"
                \n\n[package.metadata.pkg]\nid = \"".spec_bytes()
}

/// Between the injected id and the injected display name.
pub open spec fn manifest_deps_mid() -> Seq<u8> {
    "\"\nname = \"".spec_bytes()
}

/// After the injected display name.
pub open spec fn manifest_deps_tail() -> Seq<u8> {
    "\"".spec_bytes()
}

/// The dependency block up to the injected id, as bytes.
pub fn manifest_deps_head_bytes() -> (r: Vec<u8>)
    ensures
        r@ == manifest_deps_head(),
{
    "[dependencies]
log = \"0.4\"
gettext-rs = { version = \"0.5\", features = [\"gettext-system\"] }

[dependencies.gtk]
git = \"https://github.com/gtk-rs/gtk4\"
package = \"gtk4\"

[dependencies.glib]
git = \"https://github.com/gtk-rs/glib\"
features = [\"v2_60\"]

[dependencies.gio]
git = \"https://github.com/gtk-rs/gio\"
features = [\"v2_60\"]

[dependencies.gdk]
git = \"https://github.com/gtk-rs/gdk4\"
package = \"gdk4\"
                \n\n[package.metadata.pkg]\nid = \"".as_bytes_vec()
}

/// The default settings-schema template.
pub open spec fn gschema_template() -> Seq<u8> {
    "<?xml version=\"1.0\" encoding=\"UTF-8\"?>
<schemalist gettext-domain=\"@GETTEXT_DOMAIN@\">
    <schema id=\"@APP_ID@\" path=\"/@GRESOURCE_ID@/\">
    </schema>
</schemalist>".spec_bytes()
}

/// The default settings-schema template as bytes.
pub fn gschema_template_bytes() -> (r: Vec<u8>)
    ensures
        r@ == gschema_template(),
{
    "<?xml version=\"1.0\" encoding=\"UTF-8\"?>
<schemalist gettext-domain=\"@GETTEXT_DOMAIN@\">
    <schema id=\"@APP_ID@\" path=\"/@GRESOURCE_ID@/\">
    </schema>
</schemalist>".as_bytes_vec()
}

/// The default desktop-entry template.
pub open spec fn desktop_template() -> Seq<u8> {
    "[Desktop Entry]
Name=@APP_NAME@
Exec=@APP_BINARY@
Icon=@APP_ID@ // Do not translate
Terminal=false
Type=Application
StartupNotify=true".spec_bytes()
}

/// The default desktop-entry template as bytes.
pub fn desktop_template_bytes() -> (r: Vec<u8>)
    ensures
        r@ == desktop_template(),
{
    "[Desktop Entry]
Name=@APP_NAME@
Exec=@APP_BINARY@
Icon=@APP_ID@ // Do not translate
Terminal=false
Type=Application
StartupNotify=true".as_bytes_vec()
}

/// The default application-description template.
pub open spec fn appdata_template() -> Seq<u8> {
    "<?xml version=\"1.0\" encoding=\"UTF-8\"?>
<component>
    <id>@APP_ID@</id>
    <name>@APP_NAME@</name>
    <summary>A foo-ish bar</summary>
    <url type=\"homepage\">http://www.example.org</url>
    <metadata_license>CC0-1.0</metadata_license>
    <provides>
        <binary>@APP_BINARY@</binary>
    </provides>
    <releases>
        <release version=\"@APP_VERSION@\"/>
    </releases>
    <developer_name>FooBar Team</developer_name>
</component>".spec_bytes()
}

/// The default application-description template as bytes.
pub fn appdata_template_bytes() -> (r: Vec<u8>)
    ensures
        r@ == appdata_template(),
{
    "<?xml version=\"1.0\" encoding=\"UTF-8\"?>
<component>
    <id>@APP_ID@</id>
    <name>@APP_NAME@</name>
    <summary>A foo-ish bar</summary>
    <url type=\"homepage\">http://www.example.org</url>
    <metadata_license>CC0-1.0</metadata_license>
    <provides>
        <binary>@APP_BINARY@</binary>
    </provides>
    <releases>
        <release version=\"@APP_VERSION@\"/>
    </releases>
    <developer_name>FooBar Team</developer_name>
</component>".as_bytes_vec()
}

/// The default resource-manifest template.
pub open spec fn gresource_template() -> Seq<u8> {
    "<?xml version=\"1.0\" encoding=\"UTF-8\"?>
<gresources>
    <gresource prefix=\"/@GRESOURCE_ID@/\">
        <file compressed=\"true\" preprocess=\"xml-stripblanks\">window.ui</file>
        <file compressed=\"true\" alias=\"style.css\">style.css</file>
    </gresource>
</gresources>".spec_bytes()
}

/// The default resource-manifest template as bytes.
pub fn gresource_template_bytes() -> (r: Vec<u8>)
    ensures
        r@ == gresource_template(),
{
    "<?xml version=\"1.0\" encoding=\"UTF-8\"?>
<gresources>
    <gresource prefix=\"/@GRESOURCE_ID@/\">
        <file compressed=\"true\" preprocess=\"xml-stripblanks\">window.ui</file>
        <file compressed=\"true\" alias=\"style.css\">style.css</file>
    </gresource>
</gresources>".as_bytes_vec()
}

/// The default main-window description.
pub open spec fn window_ui() -> Seq<u8> {
    "<?xml version=\"1.0\" encoding=\"UTF-8\"?>
<interface>
    <object class=\"GtkApplicationWindow\" id=\"window\">
    <property name=\"visible\">True</property>
    <property name=\"can_focus\">False</property>
    <property name=\"default_width\">600</property>
    <property name=\"default_height\">400</property>
    <child type=\"titlebar\">
        <object class=\"GtkHeaderBar\" id=\"headerbar\">
        <property name=\"visible\">True</property>
        <property name=\"can_focus\">False</property>
        </object>
    </child>
    <child>
        <object class=\"GtkLabel\" id=\"label\">
        <property name=\"visible\">True</property>
        <property name=\"can_focus\">False</property>
        <property name=\"label\" translatable=\"yes\">Hello world!</property>
        <style>
            <class name=\"title-header\"/>
        </style>
        </object>
    </child>
    </object>
</interface>".spec_bytes()
}

/// The default main-window description as bytes.
pub fn window_ui_bytes() -> (r: Vec<u8>)
    ensures
        r@ == window_ui(),
{
    "<?xml version=\"1.0\" encoding=\"UTF-8\"?>
<interface>
    <object class=\"GtkApplicationWindow\" id=\"window\">
    <property name=\"visible\">True</property>
    <property name=\"can_focus\">False</property>
    <property name=\"default_width\">600</property>
    <property name=\"default_height\">400</property>
    <child type=\"titlebar\">
        <object class=\"GtkHeaderBar\" id=\"headerbar\">
        <property name=\"visible\">True</property>
        <property name=\"can_focus\">False</property>
        </object>
    </child>
    <child>
        <object class=\"GtkLabel\" id=\"label\">
        <property name=\"visible\">True</property>
        <property name=\"can_focus\">False</property>
        <property name=\"label\" translatable=\"yes\">Hello world!</property>
        <style>
            <class name=\"title-header\"/>
        </style>
        </object>
    </child>
    </object>
</interface>".as_bytes_vec()
}

/// The default stylesheet.
pub open spec fn style_css() -> Seq<u8> {
    ".title-header { font-size: 40px }".spec_bytes()
}

/// The default stylesheet as bytes.
pub fn style_css_bytes() -> (r: Vec<u8>)
    ensures
        r@ == style_css(),
{
    ".title-header { font-size: 40px }".as_bytes_vec()
}

/// The initial list of translation sources.
pub open spec fn potfiles_text() -> Seq<u8> {
    "src/main.rs".spec_bytes()
}

/// The initial list of translation sources as bytes.
pub fn potfiles_text_bytes() -> (r: Vec<u8>)
    ensures
        r@ == potfiles_text(),
{
    "src/main.rs".as_bytes_vec()
}

/// Law: a fresh project's templates expand cleanly.  With token-safe
/// values — as every realistic identity resolves to — expanding any of
/// the four generated `.in` templates leaves no placeholder token
/// behind.
pub proof fn lemma_generated_templates_expand_clean(m: TemplateVariableMap)
    requires
        token_safe(m.id@),
        token_safe(m.binary@),
        token_safe(m.name@),
        token_safe(m.version@),
        token_safe(m.gresource_id@),
        token_safe(m.gettext_domain@),
    ensures
        token_free(expand(gschema_template(), m)),
        token_free(expand(desktop_template(), m)),
        token_free(expand(appdata_template(), m)),
        token_free(expand(gresource_template(), m)),
{
    lemma_expand_leaves_no_token(gschema_template(), m);
    lemma_expand_leaves_no_token(desktop_template(), m);
    lemma_expand_leaves_no_token(appdata_template(), m);
    lemma_expand_leaves_no_token(gresource_template(), m);
}

} // verus!
