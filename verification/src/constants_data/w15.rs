//! The raw limb data of permutation width 15: the `(8 + 60) * 15`
//! additive round constants and the `15 * 15` row-major mixing matrix,
//! each entry a canonical field value below the modulus, little-endian in
//! four 64-bit limbs.

use vstd::prelude::*;

verus! {

use vstd::slice::slice_to_vec;

const C_T15: [[u64; 4]; 1020] = [
    [2005854221554352085, 13630116387331503144, 6748317074142750574, 1481013872772410130],
    [6682222077210598024, 8271974447692097720, 18207861684378888483, 819833837267862165],
    [15655289608433715837, 7027971813754521296, 11255337512074669496, 3258627089500043975],
    [1039002659687192715, 9129855792221023170, 3690277514425276829, 2698653215089711104],
    [5905858930613744701, 3496575187422372362, 12578026773865928918, 2629936602748823177],
    [12720416078907345811, 15651418280740267099, 13209701715228861404, 3324361520118655154],
    [3276149498813117684, 10108569558595955115, 16267963986903853250, 1523318976306855495],
    [17381805023182246339, 2707188067684103433, 9778791373925867551, 1470027040706146528],
    [10105030602671896517, 9206945411813992402, 8180909240652942461, 1355686384282258241],
    [13604576428355667595, 16027336023530106421, 3838043839253258047, 2605087281127937121],
    [11765031309947818642, 34683895376918593, 16731970871636734853, 1141981065470387677],
    [9432228219191828317, 6128531093148703773, 10565213951480253027, 1084168800453939526],
    [18332476288133389762, 7589366921336663578, 1895432715175908409, 3770227611972334],
    [18045343270545685541, 5201413210734394960, 14858489568025589306, 786536175020940354],
    [3805658171120577469, 3565502016422659881, 7773740127817171795, 214540313760382444],
    [2683433418878524303, 6180185340434735545, 4007228443128080710, 6529069742256958],
    [4284543904585668110, 17942050954249824249, 18437821294096730266, 1542508111988717960],
    [8629897448066317740, 2862119440558960119, 15553722342634483911, 3211059351560344245],
    [7258259093616693801, 6237510690919453757, 8094087330571465864, 3225181838551333419],
    [1943851716196358505, 1864656562571992734, 11856979123260439242, 951622540939532991],
    [3664663928307040772, 17385982673588909536, 2299897414415312877, 3027357567530491558],
    [8969343085814704325, 18030432507984994627, 2019990839854382068, 3299708364285594797],
    [15583465930347935600, 8277196640491792685, 7243196824606549161, 2509321075020270437],
    [8429008134664474115, 2681549694944211703, 6916462554231983792, 1554768493245581360],
    [396360808357064382, 9375831076750875778, 3139384374550333962, 2509735423329964517],
    [6487036266750923954, 16106753205545645567, 2553006706061409068, 2949886389860142981],
    [4422623513750170282, 6482998730214544053, 12524702071201451239, 1992282834143562943],
    [907366657164672051, 1424545244869655277, 15596418917727471154, 2863339805198350222],
    [4904452283567462144, 10986224916880623058, 7612417535387306727, 2691248104257575507],
    [2040981020782870603, 2448185103528282485, 17032453714206549197, 1540372020112075404],
    [13684450935441369793, 16890447550167554016, 11186944462121889025, 1489395697729368870],
    [4832842010762809818, 1532216507742720086, 986665035567648628, 1941479740759082381],
    [339053832954417612, 740127205544165413, 10346965850332123281, 2260825084165544781],
    [17854062428991432034, 16169852742080149858, 6888759943023100058, 28713175840805157],
    [3797929292223384243, 6610240334543468892, 9894869899053208620, 1734732455669027358],
    [15509731476026506811, 6430930041929775339, 11615515639225753638, 3296719261737308729],
    [17289828127415686546, 10532705142903082694, 177214770092730904, 3145023394991345731],
    [6873970839628996068, 13271866892911550040, 4388530609695652948, 3268222453229176681],
    [15505702518941061992, 10386154653890139219, 13264912718085825367, 249013302132895696],
    [2299659927188159148, 11050288980684958224, 10846648078150901838, 1042158221457613840],
    [152558162026571810, 12186617235526284459, 4980479532814350960, 2284326613796581720],
    [1691407762790921819, 5761684372483941815, 11284693193570241706, 1504828629743911907],
    [14060230864991049051, 12322507429955157593, 964264121976935391, 2815551586386055007],
    [17809568414208057398, 12384531828141946928, 15278870382679986025, 1040140489116167866],
    [2888344210967526562, 13734791965270282508, 5925405079281702886, 2974358625217455440],
    [3184072031853959675, 14268600000401643287, 16767247145133775706, 2562838630050866206],
    [909155167829745029, 7985542843832388222, 9164739782990196953, 861742442442511208],
    [16944726006716805755, 10072541620132817503, 8864588501564953956, 10992128658047474],
    [6694845204333861832, 7201664071931611649, 3100712283140646558, 3313170239522217619],
    [7070927497578055825, 16470305952134136332, 10192599674320988669, 840808278769858660],
    [14709526825068411825, 15093944982197764543, 17088286305819309986, 3156443347528533156],
    [7438701533944965831, 11953390958430808780, 14685210762405661052, 2334175137729261033],
    [699705191980306858, 13161894514637436960, 11075111498252860586, 311282213355030567],
    [782234513889303060, 16324106332470136020, 559778938235213236, 2702996880234033705],
    [4528659337323375753, 813196000327846100, 10474066768422562822, 1943080131604102403],
    [6893433955950232004, 5036888719340350712, 2242600499785346208, 1075060254429174963],
    [12512082703820172055, 10802953565657426563, 2314015235261106697, 1967763772271476492],
    [11935387931788800781, 15055661345014678755, 5692189602385876285, 408666840863640312],
    [61755250254976628, 5353913515148199623, 14888551493672313562, 3224626385169674813],
    [8167855651720200223, 4372220664084143711, 17904788842561725800, 983561062844253132],
    [4015046204483087227, 11457926950953471262, 9854440223855015147, 3245757477209213101],
    [4001850949717486710, 3500068108975436709, 6913250127037215325, 2113988280078296859],
    [15263607161475613502, 17859763776510632442, 7107443445168023632, 251415722223857366],
    [4830763892117203440, 7384736278261591943, 14051410424734669754, 2501069303524898790],
    [17790133762772547403, 1034644836128190233, 16891337629263149219, 1832839083477392316],
    [13392838528108442887, 3287940504257894834, 15502269552049231181, 393738235750722974],
    [6383554025740297893, 2084559809043116111, 6508376035223055395, 710721429960385247],
    [7280493895443112291, 15433637892864877394, 16452988497653240534, 2807873595011623048],
    [9640556833261273443, 15412628739660724973, 10000944915591791160, 2997464254537867295],
    [11286627978013249002, 2412627559829971091, 16379708195522021517, 2910348057657466178],
    [10739114415764661298, 6720393472930523125, 9737295736964214176, 1151327254919883396],
    [5007604961049354564, 15602230553303705214, 5876633252282407511, 1286100019326201469],
    [16614456930380491538, 16529311575375292594, 17355505481540572073, 2432534375072971843],
    [4103901991720145156, 7912091021664809120, 5473455515042636719, 3171852036120223769],
    [15332476342578816454, 7938828812168022148, 8905108781927896250, 2467069360381321435],
    [10694206558315953537, 15108488642473750147, 5883515075905237826, 2615246217198588321],
    [15790164827035595856, 8907221604659079150, 8896171023555381727, 2663629977177573944],
    [13601566486356913047, 18040319894951945390, 5956644049044906976, 3385358976989323615],
    [14055216467114657312, 7421660847332476168, 16718377965679693054, 3026374897136929941],
    [9656227406977004083, 11427932086010135623, 17063202541526577916, 2774207862797312899],
    [4822349982886577029, 15460078756541353486, 14678325700565544947, 3440684912580766472],
    [16550047794628109258, 17683552278289981511, 16353878497515915477, 2751580479575579725],
    [14627077962673657059, 17702959750936799911, 1681379020523805575, 1083128777727877069],
    [2541740182622134256, 2469423166189036141, 8567637199468932292, 2424965341194778697],
    [6360721821918346236, 2036926077352393621, 16687138223561361475, 1588243427120676190],
    [16725797037560074098, 3851589315919005517, 13133605105748275201, 34082246493492286],
    [6520540979615788245, 131648895203461191, 11217050894136666517, 2487715960655094864],
    [7220903776773525158, 13838256571199458516, 3385540812900404481, 1229555616494257860],
    [11037761942298024201, 339980959037766104, 4337410285763918102, 1064434275292876012],
    [7335508779790268387, 11316562568681028069, 3350484487346638114, 2454347668186941756],
    [3975079325386630218, 929577338716179362, 1145142453038042045, 2031020977495004935],
    [3028987059404596491, 2849594205110006728, 11004170550632483471, 2993802916243255722],
    [9864007620270117459, 3473312231680564644, 3165596020210976513, 3351042263119400961],
    [10692613569898810985, 11881984779002423020, 6859476177290657091, 2388607184947660690],
    [2563225438723263318, 9571856325944985695, 5371490631018785546, 1548037180004694126],
    [5304575035420619740, 15524542014481474923, 18062179591512280063, 1409341751818935104],
    [11180859359898435151, 14921070240977514300, 10313286234360178745, 911149930666256976],
    [9293604378650802116, 3539866937974581001, 17356154880902272939, 951617236091153833],
    [10986490796408018756, 4331438471953104256, 5073771281124032844, 62236640012862285],
    [11571608950286262719, 12128181552898217794, 10406335393416187471, 2689792246666168291],
    [2394647980794368859, 10615628795687451664, 13363637186761021252, 2663168030038221475],
    [10821520165691641385, 9118771641258312689, 5600004249407559586, 205403488312247603],
    [13467272105982672826, 16027269145663220571, 1072887707009952272, 1484431515836758135],
    [17859021833335081328, 13584128053694997731, 15267819940184936747, 1560010848807605099],
    [8007084744569206268, 224976878960824916, 3717259572403603966, 1480951618921807611],
    [6715762330035312456, 9079666190537759753, 8789718959754714743, 1644645671857738627],
    [10514041531986762807, 14104100249205501855, 4993974738065654119, 902627159735010252],
    [7412152540248116769, 418524773333756098, 3214109856792455338, 49858624512653410],
    [1736679129133682317, 2838184313340797524, 5651170544442979885, 3292010184397362568],
    [11913088608715095918, 13242882381937099905, 1985183206248218764, 848058632810613676],
    [9716995059526668205, 13251620248649143662, 11648606125298637282, 2555216081802279060],
    [15904868408321421957, 11250506763966317360, 2745572960797295611, 2201763426715600174],
    [4310081756273521332, 7111133940106967755, 9853469525255925100, 2198016971183965677],
    [14365820584212748953, 17235641251299703410, 5003291410289791583, 3323479396307223820],
    [2467626439707476766, 6936844331133869327, 11095138716729478997, 1052614273764096769],
    [13551200550129782645, 12291478658824730735, 9349209615676424347, 2656652026690281613],
    [8809428575442235469, 1247743593170644144, 8072234225165321357, 413705682553323282],
    [6704016892028494808, 1778867247459579453, 17943282281398863726, 180004374300170657],
    [4631290274456949430, 2720628363858903476, 15456841468741546565, 561527993760340858],
    [6291698957040801651, 10530634186483513239, 3767327608201749577, 157828590867605186],
    [8322355292198765228, 603887969134455119, 17225426243287313433, 2040476427484002624],
    [15585516926798138892, 13238480424520785901, 6856509561502589338, 1012913643599717557],
    [10361596913986539186, 3859357689927202396, 5538003420163000791, 445089650337461368],
    [16962776624240539205, 11108745556501241810, 12865463463077779367, 2756993392835039527],
    [5817565841584610103, 10695401171555216692, 2414361072141582556, 2594270851529635836],
    [11545120522040676614, 15566903729119456438, 6193757216998302610, 2655585241036676208],
    [16301384685509848223, 2856769030522175886, 9315778033198676022, 1889631461332824420],
    [8436925740260122640, 13432944355238419457, 7885488354156502520, 3237140901630758330],
    [6771208820175117934, 5560732571776773326, 16436694942439286657, 1587550774842735641],
    [11775553777292021318, 2183236257869534968, 15386637914039705209, 355455309966138907],
    [11390801443761878203, 17441041683891112107, 8876901867779539457, 2116694140945674759],
    [9588858021020852641, 1537510306482274783, 4225522535492377951, 1600680699380662252],
    [4442414484042402882, 12888538400430181398, 11724683647949057203, 2722169676504031942],
    [13965223647382451296, 76767119067423635, 11722755335834987769, 2156344623025121678],
    [3011341957269450478, 1531128834299778343, 7516509788339187160, 2966210064822385704],
    [17047007197319346305, 16836351963150522673, 9761200284728838204, 2805085105934560940],
    [14045013870686193953, 5574030471054535449, 618550302973227184, 419467879834848823],
    [13157679325161818613, 6750093951196006265, 16481662161569390575, 3462070483339032759],
    [7209982231119866429, 1481911980710206383, 11414739752976570758, 2782993246544522984],
    [8504199425933027938, 9555267836496499484, 4832787617004633358, 1234729016406276195],
    [9271445639647348024, 11315552313517175320, 8794160741362626643, 1505006837589228119],
    [12619131121145661441, 15705339082727637925, 13293998388584421635, 3427921457960240145],
    [8756380403760660451, 6379846300757150610, 13501772571632880099, 1254799025710077696],
    [4208503480951011937, 17267340913487978708, 463422183633834508, 17992984863715963],
    [13523217086541201853, 5452502540393164854, 12511866741692434678, 3352758454249853609],
    [17728962746692443544, 1484874304946097579, 12774206663967020585, 279357929592105059],
    [12318790378332188078, 8999437005800063394, 18384197517802717390, 2538198000004619525],
    [13319419468060472986, 2266481413079972211, 9964287809829095728, 1699884178266462974],
    [16734383389370608361, 2612809049641049209, 13295693236446408113, 1207501953005851430],
    [6463092007659341739, 16228161088609032078, 5455578082209494229, 2657004380515174298],
    [11157804963388177244, 14674887257863004576, 2874217421566814175, 2455604413640535950],
    [11283173830268746718, 18251632700418530656, 9449156325783483248, 629088157304884928],
    [11202722185769725463, 7445404436844903950, 5692477899542644120, 2656724142167655569],
    [844474040699868103, 8949207629434393115, 11705378628904235449, 2244245140485271396],
    [171957850180143385, 675431334291754500, 6425049988878790097, 1291053478952450796],
    [3275834791934886795, 17453382410438658474, 13383025293055396129, 826369867424472626],
    [8957787112770297370, 13247750792697697195, 4210422636779470790, 1624079116596575005],
    [14720923788904262067, 13870186292923487452, 17621238388208692375, 1594897361606460151],
    [5467703974630022278, 8597829200139617171, 2393371497636525212, 2633643832096707279],
    [9442261069963111339, 13323315771891341376, 12611323140217991345, 668907977462551746],
    [10012414114589224167, 10412522935771732475, 2035222408804513538, 764089144931341121],
    [10035139917210922531, 4519853676253774900, 15198751988684662839, 883785230205331759],
    [13749254570342286227, 7823555863387552804, 6681346143918351333, 1471850994134069081],
    [4092816923961865084, 5273018646760015814, 12709944702349763120, 1994173531273586355],
    [16788645845024098425, 1415944147064662662, 4968897305578090609, 1651719961140734609],
    [12622279886751053691, 4677503104409165475, 11787001467189091308, 77657705169149921],
    [12741431660876703735, 5029031577786249180, 494105342674308924, 1781878758119038226],
    [8220929646919975720, 11835453771062699568, 9614822814650415760, 1182269375901483108],
    [14246067623433233186, 12813867235071569003, 11703907089291422257, 58116951954435380],
    [973838993659158538, 9783658675519173986, 9037971020366193956, 3120510526594580019],
    [1992973075785308973, 13719742571058885592, 16113725394927080184, 2819705831558502834],
    [8051497744421272207, 8474540787551892795, 16502454258515086593, 2507389434926802259],
    [6060193641969191727, 8179848092529274091, 2392464257083413092, 2827708792997946431],
    [14940469051857496596, 11337255693275907015, 3400927382718902592, 956059356123155611],
    [11771148779591768482, 3067592074501833820, 15897445954957836181, 1947753813412790626],
    [17484058593754853862, 3801035370008846615, 8445807837263673837, 1031020098581474436],
    [14873242252541445836, 18115873365591295995, 7044258138925024088, 2810842592636315755],
    [16030352279973455170, 1589539167858561186, 13573286949214142688, 3363097805892691492],
    [4673439490631979617, 5866766215658287267, 5966382204852315690, 918844655091679105],
    [3445565643112274116, 4663220018397813272, 7960434219334409840, 3228960889468796654],
    [11775050301982892604, 5312205353381974698, 10228553572953560279, 1978942655317518803],
    [12811917840145481005, 856220251426844568, 7884878929720189019, 3296804622344526156],
    [456171193126550862, 8476807509977351813, 11546942916276075148, 571898444065965908],
    [8275144395384609266, 14447145435438055566, 6092704723700777896, 1997130166833973057],
    [847225047347902206, 14764756097685653197, 16730989977647322779, 447289282132049231],
    [4103519399003702538, 11437880852999278455, 17362962804859142393, 1773806589933752147],
    [10219768415360347882, 10705176839371056578, 10749191936047248042, 2764803154240443489],
    [13917501289395716802, 3535032464997344872, 2063140300941642105, 1457483544964659887],
    [15102159848087326400, 15522918253765486491, 9460956496471140176, 1760565445044891821],
    [6918944863157834415, 5274118774119719266, 14508073804561144017, 2889317559505044820],
    [11272783920076971493, 5470402174552208673, 3307472206433598430, 634896599279774658],
    [9766719985857918189, 1891631099148617793, 13813849039967865160, 732268830000813456],
    [127419760322686185, 12020831338618377432, 14321901194519306799, 3404810261489602583],
    [6397635758828160681, 13484091358090699412, 154987453253232838, 2242317857187478074],
    [16014491332967272349, 18169597233639571431, 9654296297426598633, 2699415105826797018],
    [9648579229500867459, 9160483406667208362, 13015242315682068393, 1060056940868689702],
    [4933815121662086900, 17408079659052763605, 12035373506734855242, 2273822523538371365],
    [15464656016643462540, 9038709778940626647, 18101431492004600943, 1874189604246682335],
    [526790405423056652, 14641237275752815662, 6423457979692494928, 2892387941564290847],
    [3837207548821905037, 11803868947401972981, 14414356005591879284, 1728511040074034967],
    [2741395618236532461, 16752967300714223976, 1200688582787150490, 2385634645113007260],
    [3099342453140143455, 1301192833353297507, 10409495135672517905, 1756745303392690978],
    [528391167154845528, 14720095543026568720, 15768514957543287126, 1232664657724447554],
    [17278781493985743997, 1880802901182356042, 12936980900558174425, 1359926594333543681],
    [8468397048621788239, 16658655529427800174, 853341655385978820, 3269128724364641794],
    [8539968668023425409, 14980817857631533668, 10066807488610641338, 2481031873504216623],
    [13807764098561406180, 220045032743638171, 7324321112019613298, 2234253641952083354],
    [6313588057636601347, 8149718973955677888, 9508025355339111173, 3401757909644389514],
    [11247911502641747372, 3623123466426467228, 4624335815872793619, 1745458500898996249],
    [11774153635208397185, 16577286319446968336, 8923883626661112649, 2809391617182457638],
    [4701837226674846415, 11982635925920660047, 18340183664217294332, 1445544809170524465],
    [2514169340742525916, 4865484046571918502, 16038418973955466310, 1290414203137394298],
    [9423623604494260450, 13283617858114284352, 12700930897297052210, 2276987898071149006],
    [10748297237974934826, 13648845499930148576, 1503764610633211049, 2842660094245717119],
    [10184538455912635357, 12711999052947610490, 12358833974664928515, 1181834756303569820],
    [14140713137457320208, 16540004910571811016, 11013025631740387790, 3392065270623842430],
    [10304434736357292779, 439058608978566651, 4155141732289105970, 3391284976860575468],
    [6672724699154230443, 12518296980488953833, 5690724307625517627, 1962097538280222671],
    [13373032810803953329, 4667866797416079573, 9050515834962880156, 507749033410317775],
    [5607109013149042257, 9763401948777053173, 1108190107328421772, 1032777619887940498],
    [14837218075890792798, 10483744663006399576, 16282633373022785773, 1285935453505692848],
    [7868353686296673559, 14785076277329523190, 1119553189883985370, 3417317261399480500],
    [270991166022580310, 16753733730779610455, 10237505870588784014, 1686637188265593716],
    [11091651437045177047, 16995300669234820824, 10712626329764728074, 539370656333879875],
    [1921233643047391027, 5657425297283504673, 9242981962513634933, 2546160114723726614],
    [3708004970716004391, 4354378438368748279, 16231183556465553842, 1760638535349584039],
    [11284772721973747410, 11961467268831069866, 3816635769736472569, 1473812050393923794],
    [7156003918908059210, 15630095831306701489, 3382291852120862646, 2450876546666627263],
    [15174728002281575188, 2047369572308525375, 7923611789474651176, 2413153799026092575],
    [6920949873497990353, 13460807359622310199, 18033421845747317736, 1691084530203214974],
    [5820067619238307687, 16768175812566595144, 12348071484956782656, 2294765764385107270],
    [282230731233765917, 4696265981710330374, 10959002327506152970, 1285016335845096633],
    [1570636737245824109, 16463172262079434811, 8630474813580315364, 3225736574280500974],
    [49677430421942178, 17687329118165351557, 1561199226434853016, 323238740337411618],
    [11310690145129403461, 12113673253235098903, 1155200866893478907, 3357557686905316733],
    [15004298297117280581, 3888050236790643513, 11889290857393115030, 2282713395828121944],
    [14221471299217510856, 3178245183282276414, 3026168650247589272, 3052456542101285677],
    [7231945049676529933, 13096005987997702072, 18247252415787405869, 1295627772486489026],
    [15750555510242415051, 10611255607437507768, 13019455545781850884, 2097132237552963646],
    [16576530813240420243, 4023352006299065592, 5253622461881202006, 1368839951151151092],
    [12445117148543542245, 11721323004922891356, 6867626349417217309, 1257487694501737646],
    [9000776874503623345, 4420840135550133664, 1208622434355620697, 1942171810386318400],
    [85363568139841008, 17463568333613920270, 10530876025243338826, 417171869181556125],
    [8539088080277692253, 9845910173328395658, 11329583801566153685, 2119605016652278971],
    [17898080917631129940, 13390824621466674804, 9081245480667681307, 99486070405679789],
    [8781860763719492759, 13627560242093125633, 3841699809645687948, 2537880458272011767],
    [9356940940532118544, 16317381560181813295, 803228689516098592, 1385175130847212757],
    [10178258325978418186, 4371627291172869649, 8857465280679910350, 2761099762254690212],
    [10327241280141887440, 12295636606844117883, 9605277136710370406, 182175151999654249],
    [6898436885527740814, 10985913433918116673, 18392697996467873785, 862561143779265881],
    [12892190874543598676, 972116642446871007, 2771609720366524994, 1329186043463352655],
    [7532594754453614089, 12117418037072419099, 12360263036607652430, 769835322211828044],
    [10830591201193558662, 13953330041247887001, 12446989763763125536, 2542652644510274741],
    [10989110484030913409, 16911464147562483190, 8738529672460785536, 726072942370051263],
    [13857082820833209982, 4282634396032119863, 5372520324920719957, 3392130037586485566],
    [18100308829128454628, 13930495644769593642, 11951208576138040172, 1486081798581592234],
    [2147493440761776569, 11822451211624892786, 3392611771798001730, 697810309683784277],
    [8972103328820291364, 14214410885776458371, 4185693815583152057, 1556046913394350626],
    [7187312197783951306, 1909399606800253684, 16129598722144133634, 372955084490465902],
    [10242077937579177281, 3564246761480279296, 4793708698739382904, 3245789098060716779],
    [15392590243884958003, 16057318852252485433, 14093840512086477329, 2515099182365577848],
    [11572204939210899768, 16669723700111299533, 6514278936167091996, 1216097649101791452],
    [5416375041865978255, 405940955372329678, 2797426469286429200, 1526254604121222896],
    [11922852184586231121, 2938956330087278190, 10383981691217538778, 3172052344724759815],
    [15537448662749307443, 8323105675234001573, 13763686435392209592, 748157981790717435],
    [6170054751884025456, 15133647394679569867, 13573545201822000383, 974663774229486334],
    [5847979670320196443, 15825527149930379418, 6433109518437412257, 3102593590339788479],
    [7821820939852011125, 7656065653097656850, 8509795540002107481, 3214793214508310224],
    [6623174054945174388, 15036898887903174878, 8891109506594224406, 426411046380319133],
    [15092722446956236956, 15172516039894969786, 16294601751600601411, 2083768657642813166],
    [8124179152354797919, 14418877103092427550, 3145781016202729130, 2272284900629388974],
    [12364127468762953565, 7175440174045235494, 8674514118254316528, 431238122809566243],
    [4336147826754565408, 7286976289330090296, 15660386360472691519, 684434063217233874],
    [2808121948264794234, 8255019950333172552, 2461140412891534036, 2978296213631539832],
    [16300282130881791350, 4730959209320636554, 15701748962044822909, 531632963973181471],
    [8052405166461363827, 13354073594997371824, 2655440093174204687, 1111334948251795379],
    [3963854640397595998, 10600176341169218901, 11097698949444227680, 1948515109612941317],
    [14801076453537559778, 9786627032834829848, 4604364569064064008, 619497788491412881],
    [14751822130845520280, 18189596374338215632, 5919810343756810393, 1222873698529533795],
    [16158840102879403201, 3176656483017304130, 4047395981662397696, 1563081869208074982],
    [775366511625077754, 1169689007960168496, 16115830047557028332, 25007231474725487],
    [1180450987227790219, 8834367513756245487, 2012339475533806199, 2642755576517008767],
    [9014091201377445071, 11980365002471278856, 3799812068059185520, 1913593214038993092],
    [7518132927100790996, 1104303941504072412, 8462230735941150158, 1538709481982823484],
    [15309757506751408259, 5514277271324430824, 8088825919294828511, 2050399609630854201],
    [16764752954082471829, 2389314009557767924, 763597806817890732, 2711045041471422268],
    [12680439044827124573, 10922111876432841159, 11780819159582462932, 2043738898726653495],
    [4561713414543820534, 13109829154027946939, 6560338129088064515, 2924857919959466982],
    [12821530707755130026, 14395301915353744827, 14368279973500016492, 2845762429561869509],
    [1570216898242136142, 8926842574210406446, 15107759480495186632, 535371654511511369],
    [3888721566761672468, 5263866146815630312, 16957723875157390486, 2788336320368139458],
    [4215132983226827807, 13730004699934895074, 4857730391147145589, 2218802623337194186],
    [1927318157067765264, 17213311554020444594, 3828082017488523426, 1258298715085430479],
    [5879261718573719444, 803352255295893760, 10610360090928538887, 859252260657082631],
    [2147949596303444106, 18147286303139062163, 18092990222245363184, 634933184921796600],
    [5180239009458892138, 12565498088804646275, 5037979446400541679, 1582505605418588661],
    [9173755640857476634, 10121684739301259257, 8232818865769393850, 763532239577807174],
    [681967559499586197, 15085389173345007487, 18166667429735561039, 821457242413945612],
    [3516778209696062465, 16341402089591776325, 15274168770606457464, 758818193223499501],
    [6020085305410814209, 12147756442667480376, 11423556248848663824, 2641418188383550708],
    [16632748670195221189, 1571658483174572613, 4475408250235619025, 3026724791498339522],
    [7249930870391260120, 6769222168753381714, 12081053748609356530, 1740399373282555015],
    [16057966690703608716, 6061481026066368108, 10606351017067297249, 3370096696909965276],
    [11771691788427515149, 5772877192993795743, 153469547418654792, 3164950780546625136],
    [7785582072091441540, 8409867350614296311, 785683249034207225, 912258777090242241],
    [12745478367714357764, 13904803778133118635, 6983118194107828998, 1548792815958983935],
    [12662300806373971842, 16669945286062649315, 8018132763144161543, 1384829094025333481],
    [10632203937594624443, 16241080094354052103, 16066221981154635017, 2773947728748807265],
    [13640082276815379022, 2436506181361030991, 15852104341813086928, 2018896867851121953],
    [15759402104162709615, 4571510419097599665, 4739065653813541035, 1620647622674209041],
    [2289043308817773142, 10225063240784819266, 9039000220194601398, 1558142383980813176],
    [11780841191552311034, 5670427928982898240, 146832398164309688, 3003249081978568834],
    [14508188945056902489, 7299717796275673700, 52126891637973869, 271219184487607112],
    [10025204359857522370, 3885112548116911917, 6281312128729439572, 657406975229514322],
    [9937362974167384594, 13998988901223710169, 14608578690454554408, 3014681677306187015],
    [13343483472833447575, 8189658961628641747, 537304985441885470, 3479197469889704872],
    [18273257982579474051, 6424889285157698478, 1385855016781858130, 1323510565922490479],
    [8693610006119485038, 14092358576516745113, 12520135182590742203, 3454095762468743767],
    [3157968306321983111, 6579521112104981071, 13691933090994178776, 2178321688180883019],
    [10753962422772923220, 7135874485392937879, 2374420238084102755, 353064038689956994],
    [524789544897071756, 6688837207072582383, 7026990438328860000, 3045315836750369726],
    [16819880149327088849, 15163771527177901057, 9034106096981816391, 1544623537549600066],
    [6868764656418008741, 8085918744846092898, 941751843376933982, 2388130614561318973],
    [222039221423858263, 9749990618337323825, 9938029618082582250, 2150761247655224698],
    [5351889685742248160, 12718142069059684161, 15173247604056317284, 1862423298229912588],
    [9690678615339313362, 15106962718038153131, 17131059277166699135, 2245143660465736290],
    [8264071094465702365, 7873943682554815594, 13191384188366196190, 499286896530747229],
    [10058297682949805967, 15391224296072036855, 2993050874928933402, 3402313359990928583],
    [2078324785637411262, 7185727817509674474, 10794458464909212119, 3079270530371819652],
    [2928913142831733332, 636462927523836289, 2553010627966379492, 2672762169339237290],
    [11969993520163208851, 9740836286801289809, 8263354597906410138, 1956818836490458314],
    [5257743967990939976, 17576330482785075930, 4194496488618385899, 1279416220855119833],
    [957692181765327921, 3533905537536385420, 18310867774312636759, 1815087442404224439],
    [14610308297294312175, 17303360430129828947, 9119437072611226385, 1511771781746343519],
    [5739482653966898322, 9631388823855171836, 11226101179726054344, 1025998649248306105],
    [14192923811355590015, 6581771759046994439, 14047788690433330441, 1098359745554538617],
    [13069270247871950525, 6933845594225820731, 15458565883783764898, 2642865659993203627],
    [9287605279601450407, 8465866290563974389, 10688695734738820382, 730168349086062561],
    [3833574520802825523, 1573326623672661891, 17157389531121105469, 835008760460030697],
    [7579405337408982120, 1692734801256024630, 13319548009191879491, 2839960356947603504],
    [18427413624805529367, 2762970037290412771, 13341159786336002067, 2240552697356250916],
    [6173481186521476048, 16408372154356726529, 16158068980985313487, 3305066675083653773],
    [3196695927968062940, 14847990330490719705, 12716445614726415427, 1477607361452968342],
    [4133989233211384802, 17836115756496601167, 15220769913709953115, 3042861146131516035],
    [6746653934824965206, 12494943907428472415, 3645319448694413443, 1285556888099329590],
    [7913700148989659173, 5337260903457148787, 9398056279025638967, 233753417278026186],
    [11213676334394758317, 14098486099550351946, 1056676052086719592, 1016597861605698897],
    [4833861040591199297, 2147276498005660795, 17230812164115419594, 2414363843639692193],
    [4979045550590492049, 3070284148164373560, 16718279300363383156, 1884198744021185457],
    [3660537295959062629, 6118428576223217171, 16239787541329597416, 3405202723246303573],
    [1420792885251719978, 17692370903659506168, 3877399703701719662, 258112496737780342],
    [3953199781838468650, 16137126849760080118, 13421973107835179904, 764783720271823762],
    [10169691217923049588, 11634862075074882513, 9247173223347740649, 2689942878981580949],
    [13870454842179781042, 9831447874085905986, 6093571381419824913, 3017325590608201714],
    [12316774016433835517, 18413435151436041585, 194317927756432455, 2712742964952502100],
    [8866046058513479201, 8154507763593105625, 4677147119026803707, 256694209395685287],
    [17446359031312292033, 17914111414062775092, 9313185664173599879, 1919111179042795573],
    [16586345147691263807, 17692703953256748520, 12094847934907784725, 1235379049459991573],
    [16330536205682647897, 3072572786165370141, 1765646926431451717, 368515543294989231],
    [14180054146689834298, 2495732339472257941, 119124882876621349, 1784429432151595993],
    [12046066150781346135, 6023753601549250150, 7946404181515523980, 711749573186792434],
    [4147970461300096597, 7726721663204953988, 16560093291312283199, 3306828261737624363],
    [8203577355305252239, 1671652797953714176, 9664063326734201612, 2781767221577957923],
    [8438437238913648349, 16713577938016392960, 3040388440586372450, 1789558462410375622],
    [17068346729924132153, 1691625708829501160, 7659597374381707074, 2228180786314089627],
    [12592325713256210142, 11436437883785559441, 5321775277929762799, 685336942971006519],
    [3134342461655681523, 15135125238096137246, 13170793764552249236, 2819262088159873007],
    [13749014221513152071, 14859132535294910434, 18199676985725350582, 1185242564820840461],
    [14097601595223179552, 10721075358977292296, 7454457300228743258, 2935095101129757239],
    [6333057737142033894, 15375744457678005864, 4171507850952893197, 340762351799848989],
    [8582544838465548351, 13265361585117589938, 7897990497322324455, 1372603255604845107],
    [899674076387035897, 9041772467562948661, 11457082950616636368, 198385256025477106],
    [17958788458197571236, 17719165163659460763, 3399876740850082506, 2588100191272444842],
    [12525721931726090610, 4324810727563251849, 18084248937126185579, 2051880288272905856],
    [7046108113687839317, 13465206199015710329, 14082134133873938923, 406602407101822750],
    [12023423912116037308, 8930953542890750208, 14367865213212212649, 156200753225322604],
    [1966644505007490433, 13320101818080748244, 10145445907027627475, 1157341545153359014],
    [2145046739394133189, 12679856123656681317, 9115967584936966431, 355979903175739718],
    [7394165141071659360, 7509391470027524680, 17442228435614965144, 496304227450812932],
    [2655723244394317684, 3033378664788148231, 14150807931806785027, 584324829694073924],
    [15858666459480679025, 9622148932258511700, 7430179812012990046, 489207535959939244],
    [2973478953687110109, 17085344483060571004, 10217501634624078115, 1246331444932434645],
    [12943949521732764809, 6590461184307860220, 13698536926857726832, 2431144442179817809],
    [15658497826116723357, 10742260811363921655, 8920753126792536880, 2689051628581234957],
    [10797182146842640509, 8352988838839719449, 9844572207951153435, 2440640947338238567],
    [8492686748503940232, 14993355425730746107, 5276789355137906604, 2331054880077628867],
    [13849402282614005785, 1810148159805457390, 8284369776655066833, 461565539734376366],
    [13371149915390893030, 886368255826158621, 18134386485414784901, 3132974992162366527],
    [8987174213940338996, 13787479158657272337, 7804132501910846767, 3205134753549280480],
    [1172842743900071078, 7613628563866997031, 7045394636656099765, 1871084069028830972],
    [16236582368386642626, 17890787786692207206, 3275672665340567096, 321054289039705441],
    [17769739384820949261, 6272306917741895927, 17011362212486381345, 2907320137228292825],
    [838218955443259748, 10082976316147352087, 3789774345310175965, 1703995792000779991],
    [14438297010286595686, 967312545186644329, 8668621841059329969, 632671249482230762],
    [11247037171121342206, 8098957385127430371, 15835638934634726077, 1586665961356938858],
    [5211402530263395840, 8257257427841562065, 13544910874488170439, 347591750840069449],
    [2165308980357314502, 17112510351871262676, 12417543201010927094, 2635557446031951245],
    [17456643909739287700, 5881223945405715342, 14717561528029268518, 8992183926984643],
    [392678580376551105, 2856053530411660173, 14053903344823776279, 2876050968556254691],
    [7544315285664255229, 12175507353721030788, 10734233176530481432, 153496227156041210],
    [15891847913413683962, 15111244616576586974, 17185709148845351210, 261354406036524164],
    [9655990334406544055, 11775136775466167205, 4171951233892224171, 2481596337612695729],
    [15535739544943858170, 2821532867089625641, 2090813947246414579, 1766890971126724578],
    [8780090505081442239, 13861494096880430376, 17463472225072648191, 2728438237421249362],
    [3271312465407388326, 10463160385933239681, 1957626335644629940, 1341836494158724315],
    [6586458768447692100, 12313827555636551492, 238279018365429132, 2335820776503851373],
    [8359904513876843930, 17807714084463868538, 13068121745261259875, 3350491661469074472],
    [6199945230854283882, 12013629743356409841, 12242941256483789581, 2021536450774099752],
    [5534913373086219122, 16801149837972571788, 1761666588070159512, 830731845977030761],
    [14738435516374262873, 4665668740656145556, 15313495138570137954, 2396311827164916372],
    [10770741454337954281, 13170168398543344680, 3927479948659240819, 124610448233753590],
    [6898224349922490838, 7035659796022671620, 2610254873939566520, 901887476669811876],
    [10325370348645809522, 4339173237589920881, 5441134814812446881, 608233587124089337],
    [8358906848176559992, 7616946049723148021, 17276747773243400009, 1507506293617596325],
    [6289948774456188881, 12843082857145618615, 959094188487706366, 2512268236789135101],
    [3436655974978985669, 5280479712983708757, 4892085543908536085, 2193992551376008052],
    [2478323030135016699, 16969809009545223187, 274348649520443324, 112561815446654998],
    [11080870306797791842, 15236281196750090377, 5955868409914688303, 1973878347055724834],
    [14945076962935790058, 7109539680592489587, 8441673548421784163, 1775595999304118712],
    [14238878465912592448, 12635120764341238855, 8876626755698606546, 2498229674046073640],
    [14177113199724265758, 3057555621326620591, 1917369364622170414, 2799790444835174485],
    [11293437776670856772, 1017076353826464919, 9484350517217321526, 896006866879249928],
    [6170839858675573216, 13632899861950320984, 12733113875123731468, 2628008659372494095],
    [15241783342924507013, 11346873857077521726, 2233674134139519470, 2140332072800835954],
    [7113379502880709793, 7775786292277796335, 8381591938329280974, 2253485742566266085],
    [8009698233466054802, 3963970418090825264, 7814371987756894883, 1273652326960224476],
    [3575471964966604585, 8653385637020095206, 12310717040391056224, 2426555117346677236],
    [18053386866988512979, 7263819216687605320, 6476530760533048725, 1228809336866183606],
    [2140624404329938724, 13556205277700902466, 16143142973417431457, 1791072936787395058],
    [15592723174582065438, 2956452009077566682, 17004429954428272338, 92157519467718352],
    [2797851825638916663, 9475430873814149290, 6563568085289936600, 1658682365947898375],
    [4946853177815545831, 4551770889473930100, 17841803295228910909, 3222348032317537839],
    [1243295489821447581, 3271156290803219550, 8888094784913839948, 650974527014591297],
    [4568137694047364622, 1971278006722207486, 9084697214789006307, 1084670094889542123],
    [1843931449188305509, 12599898588110805734, 11227601268912784833, 2379020964324398236],
    [10472825140267614202, 108568933417313094, 12017814063754232328, 1332116363354181731],
    [215071044036771851, 8745700189799351380, 1071297724985941800, 882316096273238624],
    [2177106287072976846, 12129848178962686131, 18317617905284029364, 1053942769095588277],
    [11308348746975817908, 16543341953281846316, 478825377122777839, 676600689477825277],
    [9941205478571691242, 9162367196910634785, 10350712817026480647, 792503525355819078],
    [16607999190559499426, 8451188477523894869, 3678356777097244320, 1578321464575341434],
    [9772234102564760949, 13219621453247937131, 3711271054558705483, 2268349112756370530],
    [15952983678283507812, 3221894864732121407, 8957033873081094230, 892455850247356688],
    [5885987918889694140, 5330227892944590533, 4097035260373403455, 1643347808881683992],
    [2205675684555104306, 15830292040313585305, 8937270132401842973, 3012167285272380644],
    [4908451966302595336, 4636275778921504350, 312395352755838969, 1362619897550224766],
    [918302728655868664, 9304095278805052531, 16621645958633556225, 1097822814005730624],
    [2297155216205111488, 13840393372030438539, 15981126928328070450, 3053996263599776552],
    [18081711683255448679, 6733503437243045565, 18166345985345930621, 2065264054081251748],
    [520600980649296016, 10690096611830653777, 1539637817476947483, 3158327602216616228],
    [16965440426577703284, 8387072599338627293, 9591287455330988888, 19493588370216074],
    [7988902006932719103, 17022791210830880123, 5834368807556291744, 2243553046675133865],
    [15392300568304270086, 13299771499993445976, 1713289391499256219, 547862546887711180],
    [17962279253829898614, 13318742022224242419, 5485999614412959766, 1724436587072418179],
    [14959155973653100548, 9204793455471994812, 14096590825593968647, 2652023426653661016],
    [7292429711489759870, 9995155843254955230, 272618800667199679, 2354547883951038206],
    [11970832280717947360, 13465827435197189337, 9911699875956497145, 2093760298766831761],
    [11073310384373282820, 1205337680699986888, 2666512221341350529, 220855712013565806],
    [5725821295580096265, 12236201588208912902, 10396321816938313962, 1544929416279314388],
    [17742360308776497879, 14821195718069952275, 9473957523343304422, 551274285509360197],
    [16777365526452542690, 16569158432404597025, 3793367969048930983, 198812885151269574],
    [238390086795745914, 15699080746042081641, 9957021131065300412, 718129022445458414],
    [17605259471925455228, 9900784758706350224, 6416136461435451985, 545839586239104851],
    [5077660496008212697, 15062362266666256179, 3777648375955187008, 2301417129918943162],
    [11429013170076562615, 9368373432330864847, 14149942561118963754, 1285299137554243145],
    [13840782664851093293, 17762399065156732244, 17101717888541802581, 3373772314623866237],
    [13735713072503254894, 9923333905818528534, 859298221264901885, 2710249039406352772],
    [6641581801872527302, 4478804363638365619, 3988029976625786192, 2196964014447302140],
    [3689004969960221274, 9153340703903648473, 7024369888310146834, 2701651422863022348],
    [4595756540498497561, 13759006400165078080, 10889123321882863434, 2138458834348752531],
    [9130357790397681880, 7506006629502709035, 9402999008592772708, 2984200548407120865],
    [11398978507038592925, 15309052801811536911, 3131161055072935358, 3464111859608625205],
    [17128447124903295530, 482906074109021544, 5711163774630462483, 1138161257166060395],
    [2546154882597626316, 5240611195582447132, 8608076266592606993, 87106052905046752],
    [6115339081075150199, 9647723506236656232, 12676154441779989347, 655628929105709386],
    [11796879568661254584, 8602756930512409970, 10107161396268573015, 1369382392360237591],
    [10740479099081975763, 8535554622135815834, 8690504296942699586, 1619498615902541826],
    [13540948751151590855, 12008869173701164842, 9358365272544221511, 2211403139081300283],
    [17477060631545724655, 8513689335852602948, 17231872553833435146, 26139353390239517],
    [2467672269887523300, 3125770726714141340, 9397230022029362844, 2644190810544383537],
    [1299935378699825211, 18267680730972274499, 3018471975519004036, 2992273316321829665],
    [18164708758245500800, 9866453196497758055, 7194020293245555663, 1880399318776343030],
    [16723171303644598669, 12764415666969453915, 6626476397374496447, 603923479524819345],
    [2483764892369219782, 8873005552018798390, 6350008286134555530, 87203831587325588],
    [9682942139407271562, 7746008821927000339, 11547298690769934601, 358499224993625692],
    [3548764071254248735, 6656258843735368006, 8102131000899874850, 3007522108833991192],
    [3961245168663289824, 11661463305674866396, 5530672183174696169, 872985292522230045],
    [9303842639203050643, 2240760791110051330, 14045085375087489923, 2305432478988856646],
    [6484917944645560289, 17549658257880237208, 11986423451430764227, 2408532887393020701],
    [5356678806959283123, 7186715727274911086, 12774653681983848703, 484144142133662600],
    [13661851165798362251, 920093846853486755, 5089815722244332133, 1758926486885008793],
    [4419867469482769725, 10153138894723429226, 5471863237899856022, 2313491985106731608],
    [386163834504046233, 3982302258257604605, 17722739100422250821, 1088914053627477338],
    [7839155654334029647, 16559685237970273215, 14265890358717059748, 2129455298691453608],
    [10384012497477652737, 730840917635479573, 2432365965968605080, 2111166536584591841],
    [9897377413431869205, 8784758458493852391, 17300143898657963410, 397024688014671832],
    [13695087921269700833, 6140978807939823980, 4748338744627004511, 2852958108791871905],
    [5661945567255325807, 2156266339825895343, 12269811226243368797, 3122271491761915359],
    [1114642497207775549, 1066863358161143838, 12957447104348740771, 1958974779628908095],
    [1037475572980350408, 4393078246516356518, 11491247350400140844, 483378571217755657],
    [12048701870923483112, 12814873144846731866, 12159290811009487324, 3403746477591904344],
    [9973543787782929533, 9695122591337517776, 12725033029673767666, 3447948196101591822],
    [14534466398377651657, 13401117798033848822, 15096832339932039564, 2725218635125362630],
    [8218269760178307362, 6716703621895717441, 16310336195865578287, 823707067581735099],
    [7830811182330730259, 17133596915026249711, 4472876764621165031, 2574006040318771097],
    [7580000921571249513, 2355481548307049588, 10049254642153734724, 2027512593290613726],
    [14262379279901185383, 5945746725719681017, 12647952276231840891, 490919066059692349],
    [3377207603755872147, 18084887566179883177, 17701892043243454435, 2132151704656744185],
    [4118802768021525251, 13113977335087290407, 7338345171454899573, 2726530792758859852],
    [17380947692309397047, 16612669972730239290, 7704463453516047952, 78075016496264977],
    [18420199230166038444, 10382619795039864795, 11163876674952461947, 740767738764189539],
    [18176965353386769386, 351255068406088258, 11390434398441328142, 2916912624412729085],
    [12908527661308683691, 12374397280956440390, 880585318567542789, 1245667725505693177],
    [3527292247796794021, 14626224914354250947, 18020919171400119830, 3399944269300135641],
    [10963751129017286163, 10805742384835881041, 5009033996559759792, 1428092265817636314],
    [9053813814363787078, 13056287898322999215, 12839524591738906068, 2742414590875355024],
    [8456695510830140593, 4100548428742255412, 6623065398653091960, 175803423847313681],
    [1993053749823697710, 11178699191379180602, 15032760027517090018, 3025197426771362212],
    [6313261729412338432, 12525566610589028693, 18059034558221750347, 519555878559390970],
    [16880498365116873038, 4804651566094854358, 12488286572986762966, 1314357000734627379],
    [3841599724404837802, 13723921951129586822, 3939034012174562964, 3399151783594851612],
    [7678812057236848828, 13731672792003711279, 3524301374251577212, 765391798125554474],
    [742791825415983165, 12090998337956634572, 1982485229144577149, 474797318086419910],
    [13517501987588665855, 1476230846682132643, 4437390535494870758, 3311907173168807542],
    [14687746732274601072, 3439681196367327228, 12567165325604113595, 1122046044508565795],
    [5815978597132684907, 7654925169518036443, 6274163537429298074, 1402465140739691717],
    [11987076137355772583, 4612777019635128882, 10009333227416575614, 370842259938315537],
    [10577014458548203261, 6036659910131283813, 5199147928374345952, 3377057969817388417],
    [4007075357046857164, 11617278444270026474, 2745532871957991411, 890349805432672129],
    [16120058816654564214, 2881868965763506658, 3195849237315073776, 2940482431182172689],
    [17232491337391270680, 14499455161280414801, 2149643580678663343, 196649596638000030],
    [7282956374249001364, 10136832767620062793, 18017487209003916647, 1368495927528899727],
    [6388223264298710461, 15124280280230956402, 5609504305126849214, 2305361708054850747],
    [552863505416757189, 4962443428553761498, 7919602920456771302, 367290856219727730],
    [8705425281410661848, 2680806851710965659, 17528130193918100489, 1191211501574351966],
    [14004973400917418820, 7605914683905745946, 17676545445634753338, 90374557484704656],
    [2374380187299151927, 1448536241272635399, 1098882982096878344, 3256353250774222092],
    [3574414188574491059, 5377567065613256474, 10923285432807755131, 486662340666986711],
    [1623144186396357434, 9700337206325430891, 2178165383151992134, 177632724616258131],
    [9569430200247970256, 6169798003669817462, 16382144576369356723, 1244094520664729655],
    [16841109657811825333, 7982757891876180944, 3438363156694832930, 2618297974584058689],
    [190039089729879071, 15978310778142153684, 2190521105098145122, 2475354869613260550],
    [1175637536310232498, 1299902450063704132, 11097241009803258021, 341735198926117300],
    [11877933892956558303, 2529455395511147997, 5151292130102517727, 1667885960249460285],
    [5407607805566872478, 9573271876447661289, 16327760567834756050, 3069884333037700118],
    [8156948239624969068, 6333587453726598260, 2492704425092583727, 1504300512442288882],
    [5721500963834359619, 4497606390222297938, 874000250997042467, 630676530287399165],
    [5863557436557436677, 14704260845468769093, 6100435299713200993, 1807893209135683473],
    [15327891502143426355, 17654640597956893349, 9731879857553820853, 1273527510809264023],
    [9977307117275719606, 15468245174260024793, 14662027818849415435, 2841988680422192135],
    [1875786850482181787, 15940953683453266885, 17557702806454433376, 2108015672259639112],
    [8411593370089536581, 15452780146720428967, 14391762466868729860, 3476197471184910261],
    [4502108887981687070, 851135547892122823, 8056046254187371317, 2602356353247345529],
    [13293699982683241796, 1001903365575945114, 3832421996670886274, 1245007424983208051],
    [4025212169527771897, 2178149244158797078, 18204012372056204437, 973205156230329266],
    [355243616474675613, 235854498137360184, 14380339889092441128, 2984084390615714220],
    [4637661404049818322, 1528819826761852808, 6307936700720847637, 1466809242588903111],
    [4733768318642677562, 7906339912466586152, 17052670417554995813, 681141909050946811],
    [15942784252863539193, 6145317099790532410, 11371207608923846205, 1362368574598844511],
    [9523237843789925324, 2923189242762740651, 2143274367406920138, 2823326510268151159],
    [12648122551592591397, 2737897208896386948, 17784260056895051811, 1538908611205519109],
    [736397469245993874, 12236783597437649438, 552235353456391404, 657594130907377504],
    [6915455104955938290, 11911584150161500660, 1627428655681318409, 1273753501682217916],
    [4962946105886465485, 14794672275411650105, 17280377221346050660, 431869351151569676],
    [16871412884409794534, 16800727250070013043, 18377591769272316015, 1741242263910129081],
    [1623518247666032084, 16630874192687567827, 4921626522702631485, 2230639396336558542],
    [10169048366879233001, 2214003593703935169, 2073621476807755986, 2085962395323072873],
    [14063665295780301385, 11356136746975129496, 12398087651473416903, 54342361921029698],
    [6533474003438357500, 10822135097176944126, 13021894161289232151, 973523585487383692],
    [1389660181256252728, 8423479102380315235, 7601068015062871468, 734585391735532005],
    [15084725898685652056, 16946508588049143461, 7045384340563353289, 1404097266696665713],
    [15291487237109954298, 7951672365726376424, 11238587674371884596, 650304610838120879],
    [4980126523010833315, 6100438400276386185, 4124099138551157000, 698913320287764325],
    [1562367199844035509, 5140571859559364665, 14602702564521285674, 923827206259352984],
    [7573159024176900732, 12248699213962183992, 18313432063827048434, 3141912555455205068],
    [2381024953304146350, 17179586967262356172, 9489946832602440170, 2108897361821306970],
    [8581777508857270092, 8976005255782036821, 13903532856272238211, 1648913433634395099],
    [2585992920750641624, 1681335312344683966, 16921844059722635549, 1547968324969040395],
    [9370044168701235844, 14271875823634347606, 6761921537099223000, 2000836743199509791],
    [2653704747496595102, 13975870415411813727, 4765349548497740223, 2499796156542146821],
    [5079812641977835344, 5284290207099504319, 11691253943797404341, 368825147178717840],
    [15694086402321215683, 7052561361565179709, 1331558658318740458, 1616340343274944969],
    [3854664743892634756, 4879920985720847376, 224583356792175739, 3350551984145698609],
    [16101841244514249009, 5519793977442603065, 1992676088896149069, 1538412940636109084],
    [15051061124088916167, 4508706922445704464, 8335211854209921660, 589980379983184079],
    [15286218446033896388, 12734962658139099529, 18271294093269667757, 184137451698444822],
    [10935693221031744476, 17376962623899093353, 6203878757738699077, 1507466954901376261],
    [2862964096710326715, 11948151333640331702, 4606992435309967065, 2319373337541875806],
    [3069972132930693748, 17274287360084474157, 8000431516625242489, 447985132616768386],
    [632484705516252167, 14609933065067898956, 8281359430783761078, 2322929411114672970],
    [3629026406532247002, 16950624844294275852, 6562690927086026549, 1880886779613840404],
    [7066996955817310650, 8990474223394693336, 6969727119630108268, 648732122572750343],
    [1849700531724468801, 17219565746801830433, 6659244632601476293, 3475166274676251513],
    [6854913489970071387, 13269678267397048485, 12716387212331860950, 1667147322926574425],
    [2656760042010713441, 5692794410774889383, 1200259260494917648, 2353317834151408845],
    [16147694485490324022, 17731563375248658634, 7741602012993136556, 3429505954778645184],
    [16443002748773699506, 15049904812946942495, 9552465169410282844, 1735162969463539999],
    [4716769872734295229, 13176729012965907940, 14252281354595184248, 2148420795589617068],
    [37017790933026469, 15872718389343069637, 11897725744137247330, 1823810302566003388],
    [9865274716801978674, 16694841216757895690, 3106169848943593838, 3092216220316908772],
    [12934139742119857720, 16307073619974786204, 15085406286292664875, 1938419933499028599],
    [1222813068223859722, 7728983400728829624, 4647123725231971593, 2657377355203829282],
    [10034941985572798046, 18042129289096515324, 16193767650639103417, 3393087757022175101],
    [7902472676530708716, 1032760063946182955, 7517138055073108632, 1863554139607763818],
    [13936401184884484870, 5406550728214286421, 9853238361153102946, 2355588347621095086],
    [12114778449329775430, 4212224056846319433, 13414608067626529534, 641925505768458767],
    [13733951016909138986, 6728522194277023916, 15132000857283095715, 1057389164165914138],
    [6428864024154963198, 5974641239442605885, 2567435345237128451, 1867277324788134713],
    [18039824560915761607, 17078568022800606817, 9620562408963653780, 1793584273550594575],
    [8025042568430209707, 1668995933939319018, 18289408943027129189, 2769146897916560396],
    [15274929844978785529, 4368177656499719984, 15694209564115818481, 716543066441306435],
    [10897140263515145949, 14957863942209095403, 2632942952229100520, 1483153552854402266],
    [14498112079673078984, 14495307182386684208, 8029015774024524681, 725543801570061217],
    [10092382765968897014, 17204228423083968856, 5072255026581644303, 2529372223676263200],
    [3835027389164059557, 9064953100097206732, 7389577451163748206, 16394478865446329],
    [8032089834977326992, 4487072474304678115, 1418207110497200989, 2933299071580703828],
    [12790070096264875863, 6058073566020404678, 427404684117416890, 1991022255437295956],
    [17693340590965512200, 11375242636860243357, 1348900562459918322, 2101309000200127650],
    [13580751402259662638, 10122160922359637074, 15951523674256502162, 1046582683524192961],
    [4085694775865030088, 3229130626927973347, 6199461789827285923, 874061511552295070],
    [9816598144669321470, 8283055456012594473, 13686954953622568157, 1657237637002689494],
    [9102585934096408110, 496235872048821399, 2740146813613419527, 2368990390080399926],
    [11825690524466051806, 9719024746421165403, 2427594411599121056, 1770381747095627013],
    [5717028466729947263, 6845086484869666165, 11397946502187272092, 125277366665718008],
    [11489609364739696877, 9320927109307463256, 14674215637702681591, 2039845012317873769],
    [5963641820234920700, 7963816844895094243, 4896754476520055822, 2610086394877912999],
    [13746076431315679317, 17155884239358020952, 14936425237850236206, 2929822801338739242],
    [12099990487855185356, 9692753022640141472, 3477789427865658721, 3038214319240697864],
    [13621984642420122771, 13899576763063298280, 12106437246019135939, 1125433296500422750],
    [8668382332209206718, 12240197903723135597, 5291903965616428714, 191435695695965370],
    [18409698514589456316, 17057752611069032374, 3067141020924111351, 2337674621952177922],
    [1907950202502410818, 7796276339602130691, 10140637520513619420, 1275699514753685605],
    [2611847384413602597, 5724185519199973126, 5875858513680405412, 1835868513305894932],
    [5569095601413375917, 16745083693752955456, 62357675486636479, 752048549348231938],
    [7599997777589494873, 11508103616531905850, 505796494042754931, 430874210804626793],
    [139565302451873270, 9442584450129646820, 11304835424147470211, 2847450310835427072],
    [11941939560238703531, 16817160746684928956, 15287416860491298092, 2483849796828670471],
    [12081878760988103589, 7415843907523547867, 423557640806031760, 2976033719401024997],
    [9059490837762989879, 14815413256687113416, 8427690790851777743, 55932201839862199],
    [7143166185626971214, 5197585403118675277, 5968315069533963053, 3410933548713680048],
    [14632131443967445706, 12961020655345272251, 9092203608820480252, 2745988967576422970],
    [12937767683801621719, 5907079757941763689, 261721026323572135, 819152370649018074],
    [6444188037696131609, 1857549310586604458, 12694933563416606039, 1443533476178748253],
    [5203128002021260731, 9990130781147788407, 6192532836673644720, 3425425505702202118],
    [6996762609566490811, 3307139913881387438, 16580336244987238278, 3269522249521349664],
    [13300645281740817496, 3308426513320193874, 14480530408209053360, 2603141488167558844],
    [8301742334284168754, 13191611841486739199, 15020536459922555727, 1911258694278261788],
    [12575343427654628326, 2872613841856711149, 16135401905882590507, 1868377941662711733],
    [17539451776726574504, 3592307649728673351, 11531070315681758825, 2219409178021866113],
    [11436924119105069542, 3393061768702455464, 14460889467465535807, 1416145347426824994],
    [14176788223887584174, 6664952030986651264, 15765783634418857447, 1689894055235152317],
    [15336166460442915376, 5075386848581327479, 2331737068515360968, 2130502235528224311],
    [13280399131084331615, 13840177078640628240, 14426788312993309276, 1197491935737205106],
    [13459926826579096754, 5401084559320928804, 12703537343517207690, 45266562219607583],
    [2201338086419448426, 18397023109804927456, 13541711459888558012, 265031393293090741],
    [4865787411457626311, 3744920869721920781, 8206359730118904822, 2545212877603762468],
    [10886811921910066759, 17068056836688015606, 585590450764113235, 449553764884489634],
    [7320273589393090519, 9412741795270385519, 10704979729751292063, 2614430555651455013],
    [8950590592935426645, 9198975087504045646, 5597026890520761312, 2362634961540493526],
    [14387128467772142907, 4605564498539320622, 13281005246652421402, 2949906457967328185],
    [3395823771596867903, 1298400807864761198, 14315922648340576916, 446563230380928933],
    [14220279581298738809, 17887989139887140421, 7305544106630034516, 1378828778622948607],
    [7130820784612575213, 9289875855351336639, 16299422491508137210, 2808307054820055970],
    [12068152833528291799, 8913716744858610673, 18051104705527479365, 1945672180636278696],
    [2997662015790370611, 5414347908098177421, 17974973552856909937, 309419071854081668],
    [7190535188457312050, 17595171140579429806, 11274859835330873351, 2958766944264252493],
    [7518665625126658349, 17144349067949556918, 8261421835662623078, 2890013962595776901],
    [2270217638861296495, 8959008158206195209, 17107071102168309153, 2003617696163816967],
    [1568535755452686742, 7550208637972012810, 1348865892897333021, 1569767061560314416],
    [8903255535827091333, 11634667301030844510, 3782753889695395243, 1760529424324884682],
    [13416962254117529772, 13162983651683702259, 4439268638599914707, 3464525396326981914],
    [5639420458378025367, 9631682967656535328, 13388919209533416469, 2358237166795979488],
    [9763176092387957554, 8995820554636436377, 4046841083070490284, 3342059481601880540],
    [2783210001663994298, 67798517586810128, 14861591298815773633, 165315062412636351],
    [10641207961385678237, 18296552058821999046, 8192041572908868257, 764185604572119413],
    [10724824621052090226, 2041188572374835014, 6995042044124098465, 1569795717854892993],
    [18044577191352093062, 8744334585012610304, 2169888295465146050, 2693915035086931450],
    [6544855172528905791, 663762559797857780, 10160395285629759902, 293676694911124088],
    [9614525763859083148, 4638494203903004488, 14384245383443813676, 2284713570556684755],
    [11748638228212265930, 4333868949591790579, 5015554256197202517, 1776075575917864057],
    [18405705973482364695, 2383317127741895988, 13776712364450960476, 1152780165356081899],
    [14885948509655946004, 15631618216238687914, 1352985816377779750, 1556624423282029354],
    [5670349971533198695, 6794939023715432491, 5696460098019748830, 1451433766747016381],
    [4705814773933564223, 10437002147020348888, 5271862491010063555, 1779802089225352565],
    [8759326558019818240, 1909705905129958960, 17751701597852061566, 1061420819836744066],
    [8661606056364536135, 6422923542383450424, 3641531299980059105, 1248995726820072302],
    [6942872925962248581, 9849389288869623503, 3753667824913770645, 2508509971814411955],
    [7660286060048600635, 9775708871140569654, 11192582854139100231, 1097024968735876525],
    [1839470484312530242, 18019716801283382902, 881342272096701269, 66946868809439039],
    [14030649655055309738, 7120981574734389183, 10441280200266474003, 972091466196613488],
    [16547022835392439424, 838384979139464956, 11287863592227592361, 3330002997376932413],
    [4728477348170678250, 5923974547558686884, 859866380829477356, 925057937061054234],
    [2365959827099757038, 16690946432990314762, 10216634028942471682, 1423797549355502894],
    [9277055460437631094, 16369981603197648752, 13086192822761608467, 1704357174223144271],
    [11139216772411203265, 5242304220586107251, 9223969885262324682, 606034419298657905],
    [14967249265482435249, 16957470009024526188, 14122930130273869231, 1858527784298823988],
    [9177915361855369163, 3185518644244152176, 8888647590166011401, 827665968028162284],
    [980667561774970311, 9951747904904567102, 13062619221655813451, 2329791889760600349],
    [2519038536375865848, 1700122361153062094, 7277353036574044965, 1606372105432494697],
    [14012785798827224174, 7348327842916410468, 6254627784836358934, 2969777648940342031],
    [8285150945732913415, 8870828491269206019, 16744573996034074681, 350892968091329741],
    [1706388098386844254, 8041797914141795006, 9711969738332498977, 893211362535571822],
    [11294040242885330921, 17740962400285657836, 3280647194551767220, 1905095005429140926],
    [4949084509268490824, 1055071632486679898, 16922886396321150631, 1470371339835240830],
    [13129487805879554317, 4436794955801845830, 9436355251437217197, 2669136785129905982],
    [11135841273699076861, 3433493435125224799, 12269433979592070118, 383816603899870911],
    [17068049490173515832, 11771302853174279615, 12800098726336558062, 352799656700251360],
    [8421656576421308523, 17982086005673705275, 4753203616763753359, 1819487853463085657],
    [862397548869171211, 1226643548715344844, 5042039962091847058, 608640923910180811],
    [11742131957442071159, 409741935311793216, 3167566504096232257, 1394946032079958359],
    [15074528444313974991, 7174410290678335861, 7534454367734911745, 1279643069184007020],
    [14420105597667714232, 7824361356674462177, 17023305131458858283, 1631912043995875493],
    [12160405543640879676, 15003070578661885442, 11742576605128389270, 179824486692301469],
    [13447754205294699404, 18196052401435559261, 8263953688785862543, 899155931986787064],
    [6895003036318666777, 5234766896925924049, 12911145299040886740, 1751187513123742573],
    [8698614897413284836, 18382102112529495582, 12220336449050894126, 2319782195619313289],
    [410276853668961389, 7652345897895501634, 16139472716792207369, 3483130523062557605],
    [15096468240342493626, 9597185124287544958, 17385326408984839995, 3306481368495020481],
    [1324106093467421749, 4313765807768677514, 17412421067096457772, 2701736237761314372],
    [5987266314894330876, 12405574425891708917, 994297886936642343, 226595153491133596],
    [2095652463435906716, 10556722084874953705, 2700478338663750950, 2770279567083139161],
    [13258675619060097259, 15570414830598733556, 738974834204368095, 1943178301053428485],
    [6899615452009332237, 6724838330282217736, 10661248225320000949, 3442921746606590309],
    [6609915799066500301, 5592041519439112241, 4225693322879939665, 1894521156646160829],
    [8320710210288977389, 12172868785815730636, 15563447408217648164, 2153308735963548708],
    [1784215543558648666, 16468681862370695067, 14488290869020119121, 1919431588951992528],
    [2304069355604856175, 3352519118964448634, 5267649807824833320, 276403052697221968],
    [6837705873124865210, 11039254350385261744, 4882210476007728887, 314709932481503449],
    [11496116611067667637, 4326006108172150349, 17438001265225531270, 2283244619481125284],
    [14613980103358412121, 164889117462121943, 7103268861968436212, 2916738273333251933],
    [3827351881601320314, 769158768929085168, 4068116618906000421, 2572488375255289143],
    [3538014614043751502, 14771407836350476642, 13402016695312095176, 1961112786280970307],
    [14395659322333461998, 10953068155631783979, 548253682813991702, 3302134618017227693],
    [9156809830090472212, 15841386518025280930, 8715569751621023959, 760226226945181409],
    [17277077554054015573, 15279464380796407393, 1516777966282783818, 3353397269858477026],
    [3823585059348779465, 13526108468233513194, 2752783924118123049, 2811232781996490678],
    [7945338400271630997, 16793626184587239501, 10445798931641624609, 3250850214554242701],
    [17889038654889141248, 853915431879453632, 15306274956364595314, 205201011271514732],
    [1848223891275174724, 6222681105100582478, 15370351219584979587, 1726200751078879668],
    [1386854190451720814, 8093215134637855500, 6552682011146036802, 3343924976706741000],
    [11945118948012007097, 10205623175331821567, 7317762817704439733, 2698996540005689166],
    [16532263898922448445, 7816972923191436297, 9684235642240824083, 1568204445102449258],
    [16073782722925607369, 3533111365722796283, 9450866892967066165, 816525684789908640],
    [9430302485711587606, 6578126109499519545, 2217363604444568347, 1730808732005916697],
    [17819189623540336104, 4528379582694101278, 12912278405473957864, 2969234714555729510],
    [13161527309647625365, 3241548216861770830, 7593408551736121991, 20423169283601718],
    [4008474120840592199, 7155673457875320236, 2810188060637443320, 1376370532470738964],
    [8603289781737314332, 4538221509844663438, 1912357920383647712, 771778196308635723],
    [11146799145880094555, 7430270835553803844, 14611037885004908568, 287501397601168137],
    [15983266161780510729, 693350849461614475, 6961498943173656915, 2196724375826150917],
    [9688118702758868011, 10763625691782696892, 15631858277729435524, 475502399753476317],
    [14881867317759488876, 1945822137838031800, 12953497556246702325, 476788039762907060],
    [17390727054584083032, 1637892010356573941, 13376043968540022154, 1310076158931384208],
    [13426068629294840676, 4941355870419418182, 17070779840290558465, 2521772730839777830],
    [4234506419432667276, 15296654410153671729, 16076291281015660436, 1252514187950793991],
    [15492574666376265225, 3084472791544129079, 18405012399631779707, 3090307377381388066],
    [9132396385375959840, 8086850546022486047, 15885791756466180965, 3070822296096359410],
    [18139513034038887179, 5204699373148032457, 9636008640720840560, 3404772311077340670],
    [15063736997742891253, 17752919976559727548, 17287276916462167411, 1509641464481869157],
    [12824641781097435097, 1479048804826199276, 3929728844768707323, 1425121258725237580],
    [16549508825491095378, 7744562792095514220, 11667964140989779580, 1262725036819954209],
    [12415138140497048460, 1545144483251090354, 7670800110922845755, 2551928771581185258],
    [15600485066240373153, 5293053352176641592, 558582254693305216, 2377188849699967934],
    [12067479365647980960, 7667187196758770504, 12450834498636244499, 331343295332680527],
    [487375016087329084, 7914738327216315197, 1915146054026839990, 2545856418410303085],
    [17507649264824430120, 5617077643033050111, 15555231962736165509, 1930013809528135591],
    [12671802340858674475, 3861867026397193557, 4438759521714059404, 447674507247365715],
    [13727396612775269524, 12505832513628438451, 7676433610174068213, 1456411163088538135],
    [15884362564446100248, 15953406926776499006, 3185123945937932013, 2674682774865375011],
    [496081305093333177, 18391652684924184086, 15243105467503109037, 2825540954251561865],
    [8740918527876713238, 5398137482251046685, 18014816060048796434, 3369454811843150048],
    [6149681445137781917, 6604155558507017957, 1184628840961522688, 1390597776441142475],
    [15798743247826747634, 14253658567404515905, 11057746951318122776, 3007435008146214807],
    [12535344130660711090, 6583057129233251738, 13969240175963427126, 933108412143918152],
    [18421643211139133950, 12704110417447141874, 16557374588086766808, 544317982054791850],
    [4688230221785534295, 4936377172348152961, 1916945333626988131, 1595427568321925898],
    [17411187996533328076, 2753086999069287477, 3215004832984036737, 852223321791342849],
    [923377019024242059, 15503930018636733758, 7434696165441895196, 1288939174091993829],
    [13911080976382142297, 12908201349484810864, 8475536048512206662, 516779373136236369],
    [13167554200028459542, 13409743755370929807, 16214671765863398501, 385149728709497056],
    [8206975858164068713, 7548756995541755582, 2108772960792364882, 2342993423307429935],
    [2783488274076426769, 7483168132174523372, 16260417653434188683, 2795180282634145349],
    [9992878228070868630, 17767703334859807320, 13716368173880051982, 704366570838889842],
    [4436281341700094807, 15901028315810166230, 3866671961864911929, 171642083029379682],
    [14852367128841961546, 18229375325438437547, 4150649071532143326, 558812665329207394],
    [4830283036214352413, 17541257836204382236, 17545094875236929294, 3304752461826998190],
    [7725280800514762952, 10456869243395012118, 5499501537506551407, 1597999687532490784],
    [7106873474073503304, 18317421030643364316, 18318991133092185177, 652946071605370691],
    [2582837849346110267, 12458502955554082747, 415768958440039069, 2143306950187910243],
    [11931188469120760081, 17237243364166819525, 12394738201289004061, 1873479422591149383],
    [2419771725620306945, 11288546118562312987, 13950878555756635154, 1020540612066895877],
    [9925054441993641266, 2293540055859976135, 1177257017649505052, 1841193427387522486],
    [6657616072201388396, 13495197279838649624, 13799452588081135065, 1074353355007429190],
    [6321369834044205487, 9544335636017793988, 6313228656362642994, 217256364123195080],
    [8356485926523127815, 16071478839151966484, 15995309074418125873, 2764506108156113858],
    [10346186852220239033, 11800156601489266009, 3580145341543610657, 1070388691899232490],
    [10910936669225820500, 14734753921080835477, 5117439417488969160, 3024881632110760291],
    [5685767396113531492, 4276598610828065806, 13243298384904598003, 2543476273826692127],
    [14931276735205584481, 7173610741492119522, 8201244515761763135, 3316124602022260292],
    [15702939332026479923, 415225873403438665, 8289748167655533166, 2117090694274744076],
    [17907364450824636320, 15253803358046172334, 6679045580327534787, 249793557631095570],
    [9266353098852277878, 4659138774636742180, 4721213331800392799, 224131190722309682],
    [12476783134445820910, 10809635630386538408, 14326608675051058198, 20315801597237183],
    [4658000528065756699, 6309529769527446002, 4898619136998607222, 2384048853716936783],
    [12700778845264410525, 14264226254454520982, 9863119781645941490, 2799695756238248860],
    [1873365565830115183, 6771158247640210622, 1826393329236842276, 447786396821960163],
    [14206873412615565820, 2802795733534240611, 3788279508638647936, 507054327072946891],
    [880032065300708401, 3003337548063784500, 10189420590950147706, 1480495566272482194],
    [14483013726323709472, 3069800674764277137, 8292191457274706338, 2656278031865457606],
    [11042606518190092504, 266789880677104623, 1235515894129311344, 2367648451929705142],
    [2408033401952303645, 18230097536022658196, 16369621750802748432, 310248234384199876],
    [291973190679679933, 1985636528843082506, 601885950440011154, 3075836237926764057],
    [8714231826824731894, 17206695479706307210, 8352510512871045073, 2592394469090828086],
    [18313313879381365879, 2659896198230287401, 8357849453262435065, 2241034774655002621],
    [13967460137554882046, 8673997312447479491, 9117291829587564580, 3433353170877105840],
    [8647940322112026367, 1323793665965402318, 13930467716948017720, 2822582917677769442],
    [3115636714001425309, 16149691232639479117, 3693580134160020653, 1328837146085214740],
    [3858125202778575384, 5197073418647315825, 8104822544691952704, 1965814451079417805],
    [16529045114999912630, 16359080556911779306, 13327741978467970177, 1612777119606392265],
    [11835568799213717216, 12171954411027268604, 15684582781264176726, 15983556436639223],
    [14839582430740187999, 15426851395832244248, 2008862861408689602, 250368230823850306],
    [7608839323987288225, 10348655916585677617, 14046277304601138788, 2807996342995173995],
    [9074056441678587418, 986516747668699090, 14517810179775179688, 2006893526443285398],
    [9567597291203739627, 665447567735404224, 13322272129885336126, 1478808227524216513],
    [2532633705864402053, 151111123036472438, 10702117968119377844, 1828134128460501830],
    [10459340113457383785, 15084430773512722103, 14984624603762703450, 3378562157652304079],
    [9612807358536554418, 4305444164216984511, 12564763176447102539, 1572021232965542077],
    [5174911398763771996, 10276595890627962784, 9128672360015895275, 863336375944687005],
    [6900258423156374031, 7325300500631253628, 8625399091045025016, 1701470211684436722],
    [14075944417050722210, 4283308575801091245, 7419358847905402898, 1869352971674939510],
    [12089176309984376459, 7168855785239084489, 3220633757894480249, 2392425297945283679],
    [8977902229903670855, 16429120266732159644, 17948556785928033243, 1037361104453273813],
    [5345531092227491458, 8786191743292913625, 4857869358025590752, 168408395244594673],
    [9650755047961782857, 4855607445945497847, 6953730408548678570, 3036383032612545628],
    [14958428167764046833, 15115970917281388956, 6830464061367875284, 104898694757984685],
    [7503500854569149455, 7741923448923972991, 14927853468718889813, 1211233556181510146],
    [18029560144907139068, 16400779314964424947, 17761366506811830623, 1591599831065473172],
    [5850107648412272791, 11893525131371162346, 12833747459327892422, 1403745429146894087],
    [12159076270525503045, 5235910640334502996, 15919407514517502928, 60113511089409584],
    [12837894163860018140, 16509880966382859017, 7614413184921813279, 3245515784133782836],
    [1448642739427839870, 1598877807692646869, 4756818360553706717, 2510015741723247967],
    [9394887978454473304, 7396908412434355480, 10775279400060985483, 129602831260986261],
    [13022465580012549851, 3787939953252846636, 5593000137566371871, 2448068830082839833],
    [5003744915723299570, 14068476038887715198, 6471496352638195538, 1499508811538106490],
    [327800179161740876, 18299708388680601541, 477335862402021720, 1220822882187925481],
    [15747546433251291332, 17884580554244360343, 10362605433578410867, 446428514881598687],
    [9041798668780041618, 13115799345894689895, 4589576875137623782, 1656593739511273858],
    [11540718249864479626, 15574148365253698493, 3190260140497268483, 1228824183898228858],
    [18312662181674228621, 17985701271910610306, 6428295972868840182, 2192991743849374804],
    [15329447571166370615, 13931816269204723264, 12290487415405556862, 1351196059482044005],
    [6915455786519595054, 16314341105216460405, 3302418012321079938, 3132339505995168082],
    [4992027903545566340, 14319596357697070204, 9231613904453642019, 1482957630764548184],
    [1815258612975300757, 4556020203729434491, 5772403901408682645, 710567589040511508],
    [12847924929914704657, 14859332352457613059, 6749587512786192616, 2437539404007756381],
    [13001357743152984776, 6235774946758976880, 3363721391411221273, 1949619463738847991],
    [8821715806450826737, 4675592902611907782, 17666509542671132892, 1445625396630118063],
    [9796738679845613789, 3832517762106412966, 8161432165041816979, 897141966150114632],
    [7824797782417611326, 15229356739455827103, 9413069109691709120, 337949591714841615],
    [7162502003406582664, 17910139200817433779, 5954483752750271506, 2139257551199332813],
    [2226573194963977622, 8856580837478938779, 4325492473152080892, 1216791407490900985],
    [17077075862687774766, 16484768428117164857, 9512306689097244406, 2253451513674175439],
    [4842040296498437247, 1661853242777262367, 2464304442879887100, 2070395503330581527],
    [8680972934567370215, 15504596512980853461, 10806689997962888221, 275831988947981842],
    [12065249852832999918, 5392831032887608701, 1647619192526078148, 1152642784000717637],
    [9649316208514091512, 8671086284663634766, 160904853296919905, 3356332718162857851],
    [8358700577088965863, 18254518365572770652, 4972468031392585247, 416317862680464824],
    [6093661820237012419, 13371636161421727917, 5759277482287224532, 461292629423414238],
    [17010628894982617590, 13623643461079430449, 11071420480421606189, 2880410106726193162],
    [7933546742595802191, 9654022462453666691, 10074406963684580621, 1360785214191619739],
    [8000602494461363964, 13421970098910689685, 17151784872310331326, 760383345875777947],
    [6267571614130931440, 15427720752639955470, 536037053700535635, 621729176843936361],
    [13204620440601679951, 1625463904033928493, 6692284262889181631, 522323915570453187],
    [6901349997252836848, 17628211878040217188, 5248263619899735894, 2516987674020515296],
    [106304096335718053, 4145121865943456924, 7694221720776302415, 123006994385410671],
    [14772605457586077675, 7848003535379787648, 12758347113598129686, 3373001767271227047],
    [10082843898262080455, 9486158850314832579, 3574371974546274306, 2876814169559157971],
    [17568306235060771121, 4621934372662062083, 14606988537718634582, 1033402739022236791],
    [13239103836775153649, 16828421845655240892, 10178898059213840991, 2473024263282982041],
    [10494216045661881164, 12706841047416305154, 1736468916573799563, 184028523106040952],
    [1803304165558006717, 15214553176332130529, 15405094375751521330, 1958430948172604030],
    [17256412505990199346, 3843941934222818089, 4886389703840954188, 606176203204732620],
    [16514167006055325708, 1177041523448322827, 16602274191710997465, 1654224802492586430],
    [13779675067274823716, 9477583514490755586, 5389985495801563192, 3049162821825920167],
    [3705884962679675757, 1228124362352453038, 15842609782980122193, 3291652937669345666],
    [11545866305919703354, 15020366924923300271, 12307105629191066949, 3296592340440978681],
    [3344469536383462882, 1322961002241652625, 12529524849066637323, 1218147666786559538],
    [9434177775334456131, 6607427518113609344, 8643712150283556459, 2942164681776598275],
    [2430300850737099363, 635679639801092184, 12942749208041933695, 536686749384530598],
    [3987526867393628677, 5522544507752717938, 17687327842083396253, 1753864212325156935],
    [4327187603863366100, 17900857623619871906, 2341407889780966064, 2618764167154087068],
    [15167854533404192631, 3680102181627439995, 9382371790833858549, 315181496502089114],
    [8485055634605026403, 2785265631260016839, 16646562797038485489, 1726253696836408726],
    [985650354708621079, 4417844672967994902, 13574915069074629922, 1471791523877087800],
    [14177078555225353262, 15723154491784435552, 4299404015609245270, 1570853747506771303],
    [2307118508717600152, 3803801525588614751, 1980218950054036098, 987802096415722771],
    [10833433789672745025, 4506184892123198826, 1984842062872332695, 2841931845628349884],
    [13267313281559409925, 13196290490947948036, 3396656999500861169, 2525402805639213159],
    [406744619775444074, 18284458872542722452, 16320107643278076276, 2124201750618259345],
    [11353187253990339977, 11399250402130889175, 15680579385466571731, 3208784738742685327],
    [11191018570542570126, 13361413356303312961, 6936162228259073674, 3112330062236800499],
    [16314044896058164637, 6058415402690413934, 16251600691630134350, 2130995384329449680],
    [2605197051925910031, 11345852409747813224, 10370499129297277235, 864538064492844683],
    [17485954701860632687, 13338607077324468360, 15228545436990313898, 1175355572636618620],
    [12366621178635548163, 5640715515941132311, 7978085541394146210, 2438071593970961094],
    [4300262198778468068, 845478668787654013, 14186699004002683942, 3398457067707619773],
    [6293618240500808883, 4857117969232615627, 5414265599056991951, 1612809644715599648],
    [2444719338999495923, 10938069150783972506, 1035340673107144150, 3116613175283505246],
    [11461106578005207169, 9251366134786712924, 1151896994486826390, 708480990358693131],
    [11422019156527523793, 15704374601062466026, 12666395846489095797, 1721375301445875679],
    [3729566551797052104, 11497247305629654753, 2853283292634599666, 2429059859551535718],
    [9120733764619816924, 3526064313858023827, 7796531145982018859, 242709737397858150],
    [15093647893376518806, 13122431589186716752, 9653844159877150809, 358460391434799661],
    [7891517108929280604, 81615422217377941, 7707528979600300673, 876551858873240338],
    [15331931671660898771, 6101404417471898525, 1042215164104655498, 1971628088319466449],
    [4387230837346302633, 11309620889731843963, 695968250245682088, 1747230430150357089],
    [9415107884316558312, 7497848977580300622, 17666069867323601718, 479063115774121789],
    [6578093196824213176, 13214679195812301609, 14354888376689239238, 2395980033422415552],
    [10356416642316216002, 3700345622448842732, 14159438207021013381, 3390487425472012774],
    [3972173542272033201, 17817166614135624772, 9717018935891461625, 2838978055275675965],
    [4300659598237268715, 679759993415360757, 5971180174136224056, 515989939720014152],
    [1268934632598754003, 288019500002440635, 4977463596733550171, 1109280376957911454],
    [12677539842637903850, 4515804986314927191, 12595401818813110342, 2029782442003612871],
    [9344985955112814298, 9805906499576687892, 13984926151735602684, 1354961541028154022],
    [3778044164832737287, 13151954080983783901, 5216968247569926740, 2590983545413410983],
    [15005011849480244119, 8682131409255729487, 7988883641680668926, 1910858312670651740],
    [1589946278298841042, 8706582223158101387, 10147420197005973185, 1199757796278293572],
    [13416088338100379983, 354698015540139087, 2952254100973987449, 1884287422105228716],
    [1052647611026344031, 14024656555807613725, 15266930022033497314, 2569566304248885022],
    [9311933584331279935, 3731169669693958424, 17163113418426017064, 1197493282468269602],
    [7497816529729845081, 16749661833797007931, 16831178191230093011, 1601401910921646576],
    [15644100244172924822, 1346485626315415941, 3320047010692522215, 2527619809656385076],
    [14516144105138259446, 7091677116790760952, 4589264883264573357, 281873014787332135],
    [10099551526360320183, 13664251300270339736, 14142752895430036787, 1022746164257182566],
    [17306543937166849359, 2924865931749653307, 11875264766514373954, 1342620092025661997],
    [1532316904683986536, 3649111395744201685, 1622132388696550515, 1257477043968567595],
    [8933632348631129124, 16572209874456376171, 6596176642771404654, 3147971883149089253],
    [1854539255847632420, 6377799779293992283, 6447388855757150909, 635137050582224115],
    [16982464666853139011, 9066724767059510747, 16604471258733128497, 3100593396548197870],
    [8808494058757847759, 13915098757337946853, 1952790998637354765, 788737299178688041],
    [4982405661941620899, 82816608779148137, 8545689349992060325, 814727345829230881],
    [14386919612002446457, 9752772161274304902, 88068068546105157, 1035589784468188817],
    [13261244881054192394, 10341741805404653634, 10777927283393118042, 2599493944581435746],
    [3964799228897131618, 283706651337898780, 7785796543954251061, 2332973462264505407],
    [13923564674371393058, 8065054992670125661, 17480288782133505007, 841216397734383229],
    [9033383668994379651, 14165663869848583070, 4550454826305131696, 2409904926938554133],
    [15603132985942056896, 13204139211188023142, 153808374309860734, 431951139372998328],
    [15292801832230861805, 15068179101940112898, 2120164501697307418, 304762835749508772],
    [686922513213199299, 9198514819307297575, 15838253297324953852, 3034667055545898163],
    [11961913337777476773, 18174996736614795135, 7666348220712365238, 3392535061285050665],
    [9484006695317820555, 5321823390372187663, 12228271853676599305, 604914473773805962],
    [7263403403908517198, 9551850048228393187, 8064372396554636643, 2743318957570344207],
    [8535421362617111610, 10359175845845047533, 6687797031557213910, 2505751811722816417],
    [4036528694855698978, 1074643647838242105, 11130373070059013235, 1260971545146814364],
    [4281725122574377622, 3083034977330132637, 70180974200516451, 504776757792246980],
    [13838004714026602513, 18100259404073592855, 4575411277679356193, 2199101974231099645],
    [6902371800436149569, 4310150222288705271, 6986767723377918005, 459929067704965142],
    [9592303665714503722, 7581950431196010335, 7597282768497925630, 1566929813853785070],
    [3299882799729750873, 10886294053948676677, 17675945912336399717, 1459737507834111510],
    [1925251791737227158, 5282603595166648989, 14785820582353418604, 171250057932078692],
    [16274620706924333079, 7261258554615065515, 14462868408108516073, 2321764089503719380],
    [16898798644458718285, 11607129001176322333, 10186741475498952198, 62563849073174040],
    [11433768580894223948, 1418405668017236773, 2877632577479233752, 587142250840115817],
    [18346889489041146630, 6233486175217999044, 3495943617863290730, 3446856182434622443],
    [2785355147274427539, 2250669191182683305, 12560213048554314588, 1166393001983849634],
    [7250233702718098828, 5212811336297873189, 11234659494614481199, 1142699210410969444],
    [550454536553669386, 8628204758923986623, 6592576224010286817, 673842603257105208],
    [3476311966921191353, 1076290206908942890, 5175780859318683088, 2992193490764884270],
    [15130047154763354868, 9743605276197260648, 13667302435246590048, 1907697212340222432],
    [2151649598236936740, 8577798411038711623, 7430368803689516899, 2587677600739393100],
    [9313583387596582952, 9563358975387429275, 1671446291146916302, 3309554851427797502],
    [17890085202761304123, 873031416214391746, 15397311793868296874, 236266032007199663],
    [9109093652598606885, 2908720183154099045, 4436866518678125939, 2207963042415355428],
    [4412548987767831167, 11859903599418920365, 5918434968765263918, 3410073209174627527],
    [8178815307052332299, 11162575007750009311, 18121442665827226385, 1862203203974748471],
    [10895059048228463554, 3603412064620298787, 5197986540541067954, 2193815860657173883],
    [11639033664675735503, 2935594858768534275, 7340760278376898537, 2144959460331165141],
    [1605556492113478024, 13955506459649642482, 5955592576051906569, 3410467209658207447],
    [5005167429414995656, 1657385445633659408, 11873683820729037, 2826532970768086747],
    [610908398024280655, 3524405276321130043, 287202095673512157, 3442268931087122305],
    [2936149580401621693, 16552667526542308636, 10832899785293635431, 1224843053793893010],
    [15338148567032950515, 9307209536566738574, 16800202239481045406, 698949477626612785],
    [5436964920586893346, 2347569464431175875, 14074390175977251671, 3016027521947423523],
    [13296240142405776747, 5767486361738032766, 12119502392367704541, 2332377202290406778],
    [7272672408027528941, 13661288196124465986, 12119181867373474189, 2119902242043294208],
    [10917707091143399583, 15486161230218799142, 15286131380952992361, 2681461831134426891],
    [14115508988554786818, 11779286812530304523, 2453601284104799716, 1803764846646791979],
    [16362852280730285411, 15280600776340177029, 1461697881752785213, 1091523496249399033],
    [14205212551457504180, 5597825296892856990, 13181149931176622043, 1252972117493925767],
    [17814270667337372084, 14565654667918407790, 14327034124461624227, 1252017252768379165],
    [184629230393453263, 4729619179734139333, 1907174398207482003, 2057510977776472547],
    [1406625230746326148, 10618895898656674008, 318610367567142799, 3335579742194138076],
    [5905943816675424450, 496214506472680072, 14719251474059611636, 2116750923894860859],
    [7305754136801293002, 7195659599918611900, 17042592552593095989, 2119910893238192049],
    [14896121530354162582, 12697018808673355310, 6059588853275366233, 2902583867580744263],
    [11457205588104531732, 12473161686451274805, 17364055107954867729, 864777825675771255],
    [4178401148082044382, 13245157371889414567, 15145732182799338071, 2421693573941112530],
    [3217875258024969203, 17180654624090752297, 15973811697705401890, 1463410887062169145],
    [3552441719478258555, 2609668312992224609, 10518666807918174539, 3055834699187701195],
    [14517646749006634521, 10130713616040106134, 524851068434253349, 2650536469402434942],
    [8249725755165945576, 14708140620197681683, 15408845140500648478, 1201302081555311510],
    [16070617305707624024, 16058698590811424598, 14570736313074028982, 3350869686570022669],
    [331947478601613938, 15464786851312925556, 940345258893011306, 1577278633847586697],
    [6278590325609616946, 10864837755554851497, 6137205922498037610, 3269184756132655492],
    [2310668794339246410, 13022614694924011180, 589183247321783879, 1457460115132712901],
    [2870879429307952195, 1067546754961798636, 7506688078404143575, 3371391488513583297],
    [1585765012239239516, 5760566390093312594, 11948585908245653267, 82216053219571114],
    [3483926285352280565, 2631295384079068608, 726218156497030649, 2683761003644689355],
    [5199894068279714171, 18318009336085157009, 2592603284087690651, 593436847772817266],
    [10446255297173986369, 9646852081235838020, 3418625099254532285, 2487382575337648468],
    [4271112774247528764, 16922129095506503413, 4479469975176421301, 3242118821797288268],
    [2378211675668563191, 2468337354101732359, 4747540713937137265, 1911213778597817170],
    [9854355469397440742, 14109530647161675284, 9571478183102778540, 1189683299457697674],
    [18361206251732977108, 4835963043369176406, 2416512755594441730, 321407579175381316],
    [4204994521283323385, 8726629717811376993, 4690837008015263103, 209459458202034473],
    [1391258732010794763, 15498607434474655583, 10831562423515460736, 1389758799725525364],
    [12608253337729931314, 573993672596017367, 4908602924503262914, 2709620964163667653],
    [9164558910130458958, 5795516574965031865, 16949758117529850943, 203469934855895107],
    [14521181306882931825, 15979741106340589802, 8484103106529166873, 459340377753484743],
    [5307912346454511489, 8214288381932116929, 2043323214558623547, 706666479819206309],
    [16045948634486897752, 8256470726588681300, 13026834135808438947, 2023061264375379766],
];

const M_T15: [[u64; 4]; 225] = [
    [13123520207349181950, 16144940350004108614, 15662166064977630432, 311377233349608646],
    [15186804526449186701, 1154044704141084488, 9439076774469671417, 1849056152046450841],
    [15298923972512016343, 16624287014422776681, 16094220608451078748, 3469470283804533905],
    [10227474196445316132, 9505662539106878964, 3246396074998851405, 1890524114486752614],
    [17251281983581724315, 9841499323228037009, 7463423201923500249, 3292634377175079628],
    [16263358942223637799, 17801135559195013960, 9298733328672906663, 1082814750574712877],
    [14439730458561924019, 4182186164414067524, 7149496231307051199, 2406848053958782889],
    [17132912087723164673, 16262412955494032116, 3818184859375463197, 2966111406794970061],
    [18288229172650605780, 8515697179995617020, 8965575981938498607, 1186368896466786243],
    [17559478221284651549, 6350815405983030767, 5054393568882041958, 1755448176577859458],
    [12332246450499962440, 5477356416959783886, 18118986718681264543, 2811004548006088772],
    [16146907738817811317, 7815858083641622004, 12599545086508532504, 790129198265416607],
    [16473526091183041832, 1942448348725422917, 2971391388612033248, 2911154519065888574],
    [3864411765250731612, 13480159118654857094, 11686912156558358936, 2838326867053607875],
    [14196190003460736422, 7756313396220120911, 11757394671895495883, 1117359831997962472],
    [17743595277221503970, 5951632046812777958, 14525898092301945425, 1241542916715768864],
    [5051332036235923728, 11838313615078598481, 8843146659827659157, 545794089437596343],
    [8608689601480133535, 4025773075123338545, 16922006474824586288, 2952131871768688900],
    [3310660234278778376, 11931039029243813806, 6842088998956241205, 2626994154297815867],
    [16118374648525201559, 158233202295674126, 6317496907542390490, 2409806800551150288],
    [3520369937281759274, 13255494909059834816, 4955233918967227276, 2229528939120162422],
    [8647744815167475335, 10700359831218792940, 2583840063405855211, 2850371386400486026],
    [10487815353327850149, 17220203493551080837, 9122209676115311215, 1130178674568934211],
    [18138753457547362310, 16588083837761846001, 7742057661550592839, 3144699835000313996],
    [1758388993522933168, 10506237809716361969, 15823579462760311379, 2641011062691113897],
    [4602602739852589970, 16313775662907516004, 1411710853898222790, 349044909608696363],
    [11858107212197496309, 5256819334024488978, 12727833229345582634, 1726747478537012649],
    [11411878036434032603, 7014667166401020484, 16106302269746604051, 2189315191341657227],
    [15702613976787931768, 1517669017334158778, 5749231111232258079, 1637875902160721638],
    [17848195219743579735, 13421111946644248123, 18176270169854625042, 1220500957867942824],
    [12026899234825494528, 15127431148493163724, 13371249916425380293, 2289247078882189763],
    [9250527134689794824, 9042759885437661977, 11401120823799513553, 3282347402025539353],
    [1903676077355120060, 4417138439810871134, 10432114645650622899, 3074176126228858148],
    [8634272413725513700, 9791825431415000707, 8338792340586456678, 1749831038530066000],
    [8274747962113795225, 6783809110542959088, 219761450633045605, 903314807547316690],
    [17322358793655823082, 17448631893585716575, 8883974486425328434, 781382338346602950],
    [9793474587484726857, 7868660594971322132, 10386549272466089469, 147923103648990196],
    [15605951504487920641, 14087353534074115090, 10326722555100679950, 1390352674833171000],
    [12374880797350241920, 8458556128123912791, 11061914999838317020, 3171809069933008238],
    [14813951727320676953, 13063609883661237133, 11328121181469087805, 1694378557276445406],
    [4747904997544944021, 15914591096732775645, 4379126948919282370, 1137549245027855842],
    [11312675331389261600, 3989484253654478069, 16138893454373366742, 2644226907757989497],
    [16685887046512825727, 3788697967081344978, 18266689521790745476, 372730030357039673],
    [16415038227148976561, 6677711779823437760, 3150918644380602411, 67787593963313520],
    [8126322538144398420, 18203136706875326565, 1548477716700982959, 1262108624826087215],
    [3458485136174369610, 7622407647864332900, 6219938152405306486, 1302852932414771176],
    [6464658829865849777, 18003560481652093745, 14520590806275810112, 2021521121668292964],
    [8569390678391863938, 2326699037494084020, 13450384982423588409, 2177857107070488080],
    [17245844167955012029, 3969179594321483819, 15211133922853722417, 3216371337133283598],
    [3265700309588550320, 12463687223946398437, 12764171049803176864, 2901016006441208954],
    [17443353741704498641, 3642231207052246210, 12035882339233372822, 3242525180430305131],
    [170387119579690308, 3028804054211175771, 18311578450958540576, 58488116638614241],
    [4837506797035068382, 8372143056276349520, 7941859837139711675, 2127709781346081135],
    [6923187869137937449, 12435210953259233332, 1155230911187941927, 1148012834554739060],
    [16366929247482638600, 14914449211477979268, 13106011662724250181, 1256261968587786039],
    [659245159887283635, 3326655591315366885, 7912073077297784228, 3040434267840411833],
    [3285521426636736876, 12831927548775441665, 12339042673782453493, 2597643969830778806],
    [9964442337948746052, 10488626112427662212, 93926777634815766, 2460311607000645779],
    [10538154637105108136, 13102823380747344775, 16405194629845297235, 16222781173269377],
    [17887518965344447178, 7398633410890903595, 11991877958426217181, 1684923794228639424],
    [7551856588098643660, 17715495652995466869, 8687242776992444714, 955355191466480952],
    [6107801079808883934, 8733297384804422692, 14907815211035242429, 2370197987492976101],
    [6348139668481742634, 13666892761646666125, 11400054933635876510, 2359044582639753143],
    [2695888396401880008, 3862329625706553858, 17524890596213646104, 499222953208783704],
    [18302803516716915766, 6014358192947893088, 2259339055833436964, 368709452461281507],
    [6077826194299343686, 6249142995512239722, 12157938109313757260, 2446007266273861170],
    [718444815133870694, 2678421399795320681, 1876389131085976766, 880976954804479145],
    [8963089027760950166, 10581292306439630447, 14779685710543638120, 3482994085650579815],
    [15881963914686072261, 8596481082870471545, 15286917744811703220, 1079085338499098117],
    [564908991088593803, 6255775160454569692, 6641019928831529259, 1935645731522077067],
    [11330877200141393562, 18159412644757255187, 10339421458156901950, 1775093473644092173],
    [13292783709005002218, 10214151513993348221, 4369489991093129018, 1119969996915920906],
    [7476559564953163153, 6862166652257310030, 352824307852892501, 2257237219060790642],
    [9717202235172184327, 7202336385556479652, 15891915642137869197, 2863399006698242770],
    [9748622221448236321, 5261176104164661563, 17977570240589742808, 1053423893085868634],
    [7695398443290218020, 11848382145486155046, 8151437410721259979, 3308099001642298218],
    [7158373905635170238, 9225182555429060179, 14923540323466710119, 1995480446813776098],
    [5089591117854705405, 3295756684205099662, 15592031452975281373, 2880651334104873419],
    [14993763939749708658, 5164520894296475222, 12685531487006276260, 1924487714581234431],
    [846657520379264798, 10237628563544538195, 14912254024925244813, 1660964224668155198],
    [17451869053682811401, 10663083324577049679, 2472997990068785717, 2920673930146091906],
    [14283964155995086086, 1301821572669511605, 5615413782770063841, 1699326344505784917],
    [13118264632203084044, 2547177470726499304, 6602995024786745310, 3231937769999551768],
    [9702446394936330483, 13120529587568256107, 6413250204064152570, 2858461129163957743],
    [13476492320201848358, 2584072004362603534, 7703936365110090332, 2815356155813671007],
    [7816532795837035238, 5404483187217588278, 14615512993823661012, 2774545905458295826],
    [1115724767525333527, 8561679174152270596, 13893897227675977984, 2395116571127627807],
    [14889135910032061683, 2498832870004090587, 9556822261058688082, 2392246046493807305],
    [16526306844944064339, 15529429698371883713, 4535841020825008686, 1302548554022254267],
    [6269175681590036917, 11232633865225230991, 10954666342200824732, 2262596619472251805],
    [2860823787462008754, 726585776544150936, 1998898582176040383, 1056022107253328187],
    [9893527982733747171, 9114640597731033866, 15694945983449813793, 3228854044504173495],
    [7753821969323261574, 8077122622766116568, 16413785538688226145, 388546637738774896],
    [7465906907547751504, 6055759969578996804, 12994199936777107611, 848763386038910161],
    [432745273543053603, 16474275734931971529, 8499528395578134631, 2615302085725657689],
    [4541595028589542036, 6058246871626563036, 16316926060285171129, 3455648571131543138],
    [13840323181325619273, 7350334293026481001, 12706811852609949753, 2767158619221436350],
    [8029485491420629063, 13099237885519253894, 11416888463799197508, 3100278192751579474],
    [14573440152106905682, 17307960878663521483, 17187975959974348239, 3149633537493775332],
    [6794389172278959362, 4105840059494090072, 11563446141232061870, 3330314360205981257],
    [4106043928129775246, 15961080128164007735, 3281076776191175833, 969704102643423],
    [9081668218082796799, 635916321857215806, 5717567115238075670, 937636808232283616],
    [6205273310030330305, 14519275495640834436, 12270937991919781054, 350089763055767129],
    [18243599183263013668, 16644723785597864025, 1418374370161100039, 2958541348530682302],
    [17172539155228066554, 1275124227846638282, 15350042474020992344, 1394606818629358205],
    [8368695608081696965, 12171265857641693048, 5897204140858064796, 2178308342523180326],
    [224854964720070650, 14953565186118664882, 2972862933216860351, 131891656577539009],
    [407303240225925221, 4853890035128674956, 16005770978748717485, 518825164791692426],
    [18154111130854717169, 11860132059554633081, 3426433954283031991, 3003146922698168714],
    [14148659489800849968, 18048281544302450694, 10195869598140360853, 3346932847207247486],
    [1543255568778180486, 11325228798535051551, 6603139500339930999, 3085926341218400069],
    [17505398134096244212, 6741354361027981952, 3557216706335498925, 1547337430068771294],
    [8767700656688104268, 17598509401255756796, 4873228226347058364, 390781685353581888],
    [9229329560505090531, 3007942786092312882, 17182060679391134696, 2225075259182340566],
    [17712262038341644702, 9549463593953609411, 4325014367586152565, 3022855281751849298],
    [3233010848824342901, 9270616303774073616, 16853943202782020509, 2868416673031962396],
    [5808308312166266688, 5009771090775121704, 18243002377197838205, 854566323393240241],
    [5890233182713352015, 13791759421763939474, 12733424800393562695, 2694737499217292935],
    [5647571176523139176, 16270341571009093330, 17145797497023813194, 1562896087082569612],
    [6147558824903811522, 6453717636719799624, 9345703322059050454, 2503041295425522634],
    [8987936657435681972, 2862250090123890149, 5765041066217960656, 402014668805319920],
    [14663270781315771598, 11060479739190368436, 15882853106629113340, 2061342598634459097],
    [17372093501379271440, 10603170886095901027, 916791640635771249, 2957311238733067598],
    [694553683717653471, 15680327912636816556, 890270568512147346, 1456049035119202600],
    [12895668373708456123, 271557038050142270, 9596006824122357359, 2490054747917146114],
    [11385126340453995524, 10184865319663174764, 6473578596821575139, 2661902349216017764],
    [7301246170697640597, 13185306150044597200, 18349159283366397638, 1765424085256935474],
    [4594398763252670282, 10347130308490691405, 4254816853505483947, 1635122380536456396],
    [1821401644570639277, 10744897319732601497, 193943146381458058, 147102936439884051],
    [12392492883558066922, 1036503161966186757, 13740466003607473366, 1124780561218213086],
    [689893756277934599, 8703557918240923889, 836777820630711180, 675291129075367535],
    [6892668324112039586, 15274655501945899993, 4792724557898778726, 2791106804512526916],
    [1854723577193363357, 13324954959540067736, 17151041560437855716, 1674917232902589850],
    [12064512228399054392, 7687895193765034792, 4991418702614581731, 1343836256805039314],
    [12236555623784401152, 8270786204989056056, 5298328095136627226, 1288505236207421936],
    [7616624453183320885, 13838713955108050905, 2404185413140549996, 433318982074134168],
    [5311092402725841291, 5170623798075990952, 5040277862130160171, 163135689655713081],
    [8332417835064360663, 8410668004733443452, 6867962827478786916, 2212711070108410964],
    [3109070921911028943, 9476573157438267104, 11671347888723650949, 2692585088244593683],
    [2806634677230679843, 5479189456416308036, 11055330680232291630, 1748822938227546847],
    [16932387624471865041, 13167109631296870197, 15812237828152331154, 514004837799147000],
    [5532446430203969504, 10026145784725102301, 17074513920070695830, 1544569787968396686],
    [107402546427561606, 14366158704819547466, 1129337097691234199, 1795263750523111359],
    [10716687404495090209, 9640478828626035252, 16002455418269974260, 825022521015426742],
    [8675279984062465734, 2736226681307503889, 3689835063102242741, 2046466589817749828],
    [12890385477886213976, 17215236725650092021, 10274206631241745902, 1199754553274806070],
    [1065797488477152638, 15568939619127436375, 14945524195728394045, 2239602611854169170],
    [7348048324392919718, 14650234180845960990, 8076680007374808266, 131526148054543908],
    [16619472435784658837, 16426669570784860920, 1271767595104506102, 1630847167648734292],
    [16325277587426076076, 7261975592963567654, 12516096032458484776, 1503714693351107744],
    [16381920148628048657, 4744413313944372868, 17075121420339792959, 1837888345458049557],
    [4690271766516521227, 8705895881459636720, 11184340253040754053, 644904139522575239],
    [6831122788653972761, 7498306362216918121, 5546625695798932982, 2709524438523069554],
    [17496531798630067707, 13251809638023275542, 14080718096064297750, 467691103689583378],
    [2801689111030159794, 9857473203411553916, 7955001077405484890, 1017108465317515699],
    [11944361414983767241, 15530049666785864562, 3796228552375442647, 1673996783688648921],
    [1542794932951241438, 11969004667392064780, 2426206773614508988, 2987968521446518393],
    [438207299245271839, 4787212990546777746, 11863968459038916476, 258404436196350495],
    [109414767920003740, 1164081128808197750, 17028243923163792692, 3055374575233253950],
    [8948870348637817100, 10083552246063221665, 6532096312939635686, 1221657923920756544],
    [13719922982830897967, 25460381339624952, 13646330522982090477, 2711910515685353021],
    [7770902061145356989, 12628293941577742794, 8869093746001028782, 1742643001838741894],
    [12457265400483281783, 6140035246960596685, 1475571193346433975, 301435929251303461],
    [4375408724523017413, 8787258600661806511, 16255836656380000452, 418411836389073224],
    [16003244720688707842, 12867391632394203873, 15831494517685372924, 1748707399170742190],
    [15903331694130119411, 4009312123904761142, 4221382767442001276, 520559346316905651],
    [9343409732140638507, 4133799291637238268, 7135984945768685810, 2903184622255024742],
    [3811404894667578819, 10413389469410442641, 5494861847004075674, 646141673668924521],
    [12256404340237592659, 18384140744557978624, 10628607177498562405, 2971435261124089757],
    [13809709035357494163, 15539733886087425109, 9810205634100048904, 187859147908099201],
    [1555203611455811833, 4034858665599908432, 18146446503911755741, 701504089781302806],
    [367155557075075812, 1296415836273342271, 9882647141225365873, 2900741511702593943],
    [9888389108775651365, 16641627190860023638, 1939294893658750875, 836924313423507237],
    [9787643315383317985, 8212183622255738669, 3571321824517970264, 336237879308122570],
    [7930150582726555295, 18355479144743255142, 12670940910064286247, 2682476071838000860],
    [16987362991107708559, 9614745878028040159, 11541896340082038821, 1031276590996925558],
    [12617910243968872738, 15432655742835073152, 15065451122781003359, 1328219675672587333],
    [8833489640875350609, 16865882605422742783, 16534662204622657599, 932298659802595985],
    [18067658481966684583, 15542946471643637624, 13888217496863814710, 1225710267420889050],
    [15017810398101722194, 16473408306658552637, 762441315045033859, 1076084274649764078],
    [11803726255809809616, 572918238200484705, 7391553071920361478, 695049966530364523],
    [6425207043564853813, 5186538897637184082, 11211221424520845107, 1834986515523945156],
    [2396526299049525198, 3662161430651980628, 4884308663833485199, 3282779627637597288],
    [16149770099878131452, 17463392172979860129, 5700372872329377330, 2691910290320712036],
    [11225034500932879362, 12681067898230857678, 3402480080041404263, 1760365807454491617],
    [2476484554392130095, 2353914814168458946, 2700095707329739283, 3011555621216407333],
    [10233481105595647153, 15001728729478135237, 4107494101877356384, 2310243318396121393],
    [8280414731069904335, 5582086707536276811, 365755519941669316, 1901545479023430311],
    [937846490223011967, 17730640503941995533, 10657884199036718477, 1383565731220111079],
    [17195591757792770195, 4447378519577604149, 12298658179215672857, 2204883017477735100],
    [1942017024003806990, 1935424040320223557, 12821342122579604192, 1429977165916056319],
    [6766170115604827306, 12294143396811830869, 7968794332192570843, 407439859095354314],
    [2169348542968958454, 4566127948679368843, 15798040265898254063, 2742394457879482322],
    [12080259656253571776, 4443814533729579876, 8053286352654058491, 1477918492303748030],
    [14686209658900268542, 10026416479436814391, 9881364407609112959, 1380430786456089346],
    [15084493854562596117, 1081022684343306323, 13121917927390675162, 472513927345907080],
    [13469850678202728087, 6115920982116397252, 4234361752776193418, 3298200632763402322],
    [12734219764352884750, 497706227471588935, 9018683829943041840, 1977832592093305723],
    [8379856641700554264, 4349436507486182918, 11685628642078697650, 2245763267189931278],
    [4865865438865327272, 17065122826603214954, 249904089368753196, 1813065890097689415],
    [5982270422431566592, 16603678260242700673, 16200783974270887458, 1815720770560112438],
    [3797918692654612064, 3028714585789500717, 767799541792062230, 635524917142994072],
    [4507257202955116479, 11217675705829757404, 5211117053368036682, 2018531281126354106],
    [2573253460745839260, 2686692131158135150, 3092028532032079952, 507194515170665823],
    [15229282937691268453, 2467275262708794055, 3106482443542616952, 893859433347511176],
    [16378840053732759956, 8214704039697658098, 18078016486816173307, 522630766349063913],
    [5507464980328842531, 5082735047197990669, 4085952381618881624, 191486831835320220],
    [7278199038888048079, 11948752313977993751, 11080566654240196483, 847635493679967413],
    [15097869453206662043, 16021375847661149619, 4685143034256348358, 178091768181471489],
    [13494423584838281520, 11062412623915579029, 15758082247558689629, 545454743065376363],
    [4588397917436772941, 17524280139332504591, 10860163359331307391, 2476417535958482804],
    [13105146545180720330, 2824301379601006400, 12995192789859453239, 919711464717612648],
    [12645671432108244775, 1356314347163352019, 15336419214728353251, 972076528741612450],
    [4777404696785941103, 1275528588755354508, 12723382006199896496, 2516351807867878372],
    [3728257619445949263, 13031562866109476481, 4856663669716070114, 210891759604941901],
    [12304569837019139717, 12646202027823544223, 3049377066883766789, 916194496651311385],
    [2927748220132671100, 7900956572019867334, 8673980770450624295, 258280372045611158],
    [7223890229239970109, 15424751706449914178, 14256051692439539471, 1942580196315119513],
    [11530249359352990728, 6475886431992492353, 733814899033414854, 1048665842257779704],
    [16730378198137668777, 93599785549008120, 7869957310452740386, 2264704680145033147],
    [121197695023434610, 4903256554474250371, 9548860058312113234, 921259952313001694],
    [15227789814984697889, 10642144638600102038, 6671826025603123759, 868578087067266757],
    [10496084358272129325, 7357713926236501956, 17942616193069878498, 8745932496128479],
    [1278119425925206174, 4809058444280718387, 5910645261611461036, 1409459539778703855],
    [13300210622153071969, 11455849032935493663, 7077695982848119235, 1245574755424362293],
];

/// The shipped additive-constant data of width 15.
pub closed spec fn c15_data() -> Seq<[u64; 4]> {
    C_T15@
}

/// The shipped mixing-matrix data of width 15, row-major.
pub closed spec fn m15_data() -> Seq<[u64; 4]> {
    M_T15@
}

/// The additive round constants of width 15, pinned to the shipped data.
pub fn c_t15() -> (v: Vec<[u64; 4]>)
    ensures
        v@ == c15_data(),
        v@.len() == 1020,
{
    slice_to_vec(C_T15.as_slice())
}

/// The mixing matrix of width 15, pinned to the shipped data.
pub fn m_t15() -> (v: Vec<[u64; 4]>)
    ensures
        v@ == m15_data(),
        v@.len() == 225,
{
    slice_to_vec(M_T15.as_slice())
}

} // verus!
